use vstd::prelude::*;

verus! {

// The instruments every pool registers with the metrics registry: a
// checked-out-connection gauge, an average-wait gauge in milliseconds,
// and a connection-error counter, each labeled by pool role and shard.
// The registry itself is an external collaborator; what is fixed here is
// the descriptor data handed to it, so every process registers the same
// instruments under the same names and labels. The counts behind them
// live on the pool.

/// The name of the checked-out-connection gauge.
pub fn checkout_count_metric() -> (r: &'static str)
    ensures
        r@ == "store_connection_checkout_count"@,
{
    "store_connection_checkout_count"
}

/// The name of the average-wait gauge (milliseconds).
pub fn wait_time_metric() -> (r: &'static str)
    ensures
        r@ == "store_connection_wait_time_ms"@,
{
    "store_connection_wait_time_ms"
}

/// The name of the connection-error counter.
pub fn error_count_metric() -> (r: &'static str)
    ensures
        r@ == "store_connection_error_count"@,
{
    "store_connection_error_count"
}

/// The constant labels of one pool's instruments: the pool role and the
/// shard it serves.
pub fn metric_labels(pool: &str, shard: &str) -> (r: Vec<(String, String)>)
    ensures
        r@.len() == 2,
        r@[0].0@ == "pool"@,
        r@[0].1@ == pool@,
        r@[1].0@ == "shard"@,
        r@[1].1@ == shard@,
{
    let mut labels: Vec<(String, String)> = Vec::new();
    labels.push((String::from_str("pool"), pool.to_owned()));
    labels.push((String::from_str("shard"), shard.to_owned()));
    labels
}

} // verus!
