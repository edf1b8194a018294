use shard_store::error::StoreError;
use shard_store::metrics::{
    checkout_count_metric, error_count_metric, metric_labels, wait_time_metric,
};
use shard_store::pool::{resolve_conn_result, CancelableError, ConnectionPool, WithConnOutcome};

#[test]
fn at_most_pool_size_closures_run() {
    let mut pool = ConnectionPool::create("primary", "main", "postgresql://u:p@h/db".to_string(), 2);
    // two permits exist; a third concurrent closure is not admitted
    assert!(pool.begin_conn());
    assert!(pool.begin_conn());
    assert!(!pool.begin_conn());
    pool.end_conn();
    assert!(pool.begin_conn());
    assert!(!pool.begin_conn());
    pool.end_conn();
    pool.end_conn();
}

#[test]
fn connection_detail_parses_the_pool_url() {
    let pool = ConnectionPool::create(
        "aux",
        "main",
        "postgresql://graph:pw@db.internal:5433/graph".to_string(),
        5,
    );
    let fs = pool.connection_detail().unwrap();
    assert_eq!(fs.name, "shard_aux");
    assert_eq!(fs.host, "db.internal");
    assert_eq!(fs.port, 5433);
}

#[test]
fn connection_detail_reports_bad_urls() {
    let pool = ConnectionPool::create("aux", "main", "not-a-url".to_string(), 5);
    assert!(pool.connection_detail().is_err());
}

#[test]
fn ok_results_pass_through() {
    match resolve_conn_result::<u32>(Ok(7), false) {
        WithConnOutcome::Value(7) => {},
        _ => panic!("expected the value"),
    }
}

#[test]
fn errors_become_failures() {
    let r = resolve_conn_result::<u32>(
        Err(CancelableError::Error(StoreError::ConnectionUnavailable)),
        false,
    );
    match r {
        WithConnOutcome::Failure(StoreError::ConnectionUnavailable) => {},
        _ => panic!("expected the failure"),
    }
}

#[test]
fn signaled_cancel_is_a_cancellation() {
    match resolve_conn_result::<u32>(Err(CancelableError::Cancel), true) {
        WithConnOutcome::Canceled => {},
        _ => panic!("expected a cancellation"),
    }
}

#[test]
fn unsignaled_cancel_is_a_defect() {
    match resolve_conn_result::<u32>(Err(CancelableError::Cancel), false) {
        WithConnOutcome::Defect => {},
        _ => panic!("an unrequested cancellation must surface as a defect"),
    }
}

#[test]
fn checkout_gauge_and_error_counter_track_events() {
    let mut pool = ConnectionPool::create("primary", "main", "postgresql://u:p@h/db".to_string(), 2);
    assert_eq!(pool.checked_out_count(), 0);
    assert_eq!(pool.record_checkout(10), 10);
    assert_eq!(pool.record_checkout(30), 20);
    assert_eq!(pool.checked_out_count(), 2);
    pool.record_checkin();
    assert_eq!(pool.checked_out_count(), 1);
    assert_eq!(pool.error_count(), 0);
    pool.record_error();
    pool.record_error();
    assert_eq!(pool.error_count(), 2);
}

#[test]
fn instrument_names_and_labels_are_fixed() {
    assert_eq!(checkout_count_metric(), "store_connection_checkout_count");
    assert_eq!(wait_time_metric(), "store_connection_wait_time_ms");
    assert_eq!(error_count_metric(), "store_connection_error_count");
    let labels = metric_labels("replica1", "aux");
    assert_eq!(
        labels,
        vec![
            ("pool".to_string(), "replica1".to_string()),
            ("shard".to_string(), "aux".to_string()),
        ]
    );
}

#[test]
fn wait_average_starts_empty_and_tracks_samples() {
    let mut pool = ConnectionPool::create("primary", "main", "postgresql://u:p@h/db".to_string(), 1);
    assert_eq!(pool.wait_average(), None);
    assert_eq!(pool.record_wait(10), 10);
    assert_eq!(pool.record_wait(30), 20);
    assert_eq!(pool.record_wait(32), 24);
    assert_eq!(pool.wait_average(), Some(24));
}
