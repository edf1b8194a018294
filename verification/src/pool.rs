use vstd::prelude::*;
use crate::error::StoreError;
use crate::foreign_server::ForeignServer;
use crate::conn_url::{spec_parse_url, ConnDetailV};
use crate::limiter::Limiter;
use crate::shard::{valid_shard_name, Shard};
use crate::wait_stats::{WaitStats, WAIT_SAMPLE_CAPACITY};

verus! {

// The per-shard connection pool. The physical connections and the thread
// pool that runs blocking closures live outside the verified core; what
// is modeled here is everything the pool decides: its invariant tying the
// concurrency limiter to the pool size, the permit bracket around every
// blocking closure, and the classification of a closure's result —
// including the rule that an unrequested cancellation is a defect.

/// How long a caller may wait for a connection before the checkout fails:
/// effectively indefinitely, so contended work blocks rather than fails.
pub const CONNECTION_TIMEOUT_SECS: u64 = 21600;

/// What a blocking closure run under `with_conn` reports back.
pub enum CancelableError {
    /// The closure observed the cancellation signal and stopped early.
    Cancel,
    /// An ordinary database failure; a failure to even obtain a
    /// connection is reported the same way.
    Error(StoreError),
}

/// What `with_conn` hands its caller once the closure finished.
pub enum WithConnOutcome<T> {
    /// The closure's value, propagated normally.
    Value(T),
    /// The closure's (or the checkout's) failure, as a store error.
    Failure(StoreError),
    /// The closure stopped because the caller abandoned the call.
    Canceled,
    /// The closure reported cancellation although the handle was never
    /// signaled: a programming error in the closure, fatal for the
    /// calling unit of work.
    Defect,
}

/// How a closure result and the state of the cancellation handle combine.
pub open spec fn resolve_spec<T>(result: Result<T, CancelableError>, signaled: bool) -> WithConnOutcome<T> {
    match result {
        Ok(t) => WithConnOutcome::Value(t),
        Err(CancelableError::Error(e)) => WithConnOutcome::Failure(e),
        Err(CancelableError::Cancel) => if signaled {
            WithConnOutcome::Canceled
        } else {
            WithConnOutcome::Defect
        },
    }
}

/// Classify what a finished closure returned, given whether its
/// cancellation handle was ever signaled.
pub fn resolve_conn_result<T>(result: Result<T, CancelableError>, signaled: bool) -> (r:
    WithConnOutcome<T>)
    ensures
        r == resolve_spec(result, signaled),
{
    match result {
        Ok(t) => WithConnOutcome::Value(t),
        Err(CancelableError::Error(e)) => WithConnOutcome::Failure(e),
        Err(CancelableError::Cancel) => {
            if signaled {
                WithConnOutcome::Canceled
            } else {
                WithConnOutcome::Defect
            }
        },
    }
}

/// A cancellation result without a signaled handle is always the defect
/// outcome — never a value, a failure, or an ordinary cancellation.
pub proof fn lemma_unsignaled_cancel_is_defect<T>()
    ensures
        resolve_spec::<T>(Err(CancelableError::Cancel), false) is Defect,
        !(resolve_spec::<T>(Err(CancelableError::Cancel), false) is Value),
        !(resolve_spec::<T>(Err(CancelableError::Cancel), false) is Failure),
        !(resolve_spec::<T>(Err(CancelableError::Cancel), false) is Canceled),
{
}

/// One shard's connection pool, as the verified core sees it: the shard
/// identity, the raw connection string, the pool size, the limiter that
/// brackets every blocking closure, and the instrument state the event
/// hooks maintain: the checked-out-connection gauge, the connection-error
/// counter, and the wait statistics behind the wait gauge.
pub struct ConnectionPool {
    shard: Shard,
    pool_name: String,
    postgres_url: String,
    pool_size: u32,
    timeout_secs: u64,
    limiter: Limiter,
    running: usize,
    checked_out: u64,
    connection_errors: u64,
    wait_stats: WaitStats,
}

impl ConnectionPool {
    pub closed spec fn shard_name(&self) -> Seq<char> {
        self.shard@
    }

    pub closed spec fn pool_role(&self) -> Seq<char> {
        self.pool_name@
    }

    pub closed spec fn url(&self) -> Seq<char> {
        self.postgres_url@
    }

    pub closed spec fn size(&self) -> u32 {
        self.pool_size
    }

    /// How long a checkout may wait before it fails.
    pub closed spec fn timeout_secs(&self) -> u64 {
        self.timeout_secs
    }

    /// Blocking closures currently in flight through `with_conn`.
    pub closed spec fn running(&self) -> usize {
        self.running
    }

    /// The retained checkout waits, in milliseconds.
    pub closed spec fn waits(&self) -> Seq<u64> {
        self.wait_stats@
    }

    /// Where the next overwrite lands once the wait ring is full.
    pub closed spec fn wait_oldest(&self) -> int {
        self.wait_stats.oldest()
    }

    /// What the checked-out-connection gauge shows.
    pub closed spec fn checked_out(&self) -> u64 {
        self.checked_out
    }

    /// What the connection-error counter shows.
    pub closed spec fn connection_errors(&self) -> u64 {
        self.connection_errors
    }

    /// The pool's configuration, which no operation changes.
    pub open spec fn same_config(&self, other: &ConnectionPool) -> bool {
        &&& self.shard_name() == other.shard_name()
        &&& self.pool_role() == other.pool_role()
        &&& self.url() == other.url()
        &&& self.size() == other.size()
        &&& self.timeout_secs() == other.timeout_secs()
    }

    /// One more wait sample was recorded, exactly as the statistics ring
    /// records it: appended while the ring still grows, replacing the
    /// oldest sample once it is full.
    pub open spec fn wait_recorded(pre: &ConnectionPool, post: &ConnectionPool, d: u64) -> bool {
        &&& (pre.waits().len() < WAIT_SAMPLE_CAPACITY ==> post.waits() == pre.waits().push(d))
        &&& (pre.waits().len() == WAIT_SAMPLE_CAPACITY ==> post.waits() == pre.waits().update(
            pre.wait_oldest(),
            d,
        ))
    }

    /// The pool's invariant: the shard name passed validation, the
    /// limiter's capacity equals the pool's connection count, and every
    /// running closure holds exactly one permit.
    pub closed spec fn wf(&self) -> bool {
        &&& self.shard.wf()
        &&& self.limiter.wf()
        &&& self.limiter.capacity() == self.pool_size
        &&& self.running as int == self.limiter.in_flight()
        &&& self.wait_stats.wf()
    }

    /// The invariant is public knowledge where it matters: a well-formed
    /// pool never runs more closures than it has connection slots.
    pub proof fn lemma_concurrency_bound(&self)
        requires
            self.wf(),
        ensures
            self.running() <= self.size(),
    {
    }

    /// Build the pool for one database of one shard. The shard name must
    /// already have passed validation: an invalid name here is a
    /// configuration defect, fatal at startup.
    pub fn create(shard_name: &str, pool_name: &str, postgres_url: String, pool_size: u32) -> (r:
        ConnectionPool)
        requires
            valid_shard_name(shard_name@),
        ensures
            r.wf(),
            r.shard_name() == shard_name@,
            r.pool_role() == pool_name@,
            r.url() == postgres_url@,
            r.size() == pool_size,
            r.timeout_secs() == CONNECTION_TIMEOUT_SECS,
            r.running() == 0,
            r.waits().len() == 0,
            r.checked_out() == 0,
            r.connection_errors() == 0,
    {
        let shard = match Shard::new(shard_name.to_owned()) {
            Ok(shard) => shard,
            Err(_) => unreached(),
        };
        ConnectionPool {
            shard,
            pool_name: pool_name.to_owned(),
            postgres_url,
            pool_size,
            timeout_secs: CONNECTION_TIMEOUT_SECS,
            limiter: Limiter::new(pool_size as usize),
            running: 0,
            checked_out: 0,
            connection_errors: 0,
            wait_stats: WaitStats::new(),
        }
    }

    pub fn shard(&self) -> (r: &Shard)
        ensures
            r@ == self.shard_name(),
            self.wf() ==> r.wf(),
    {
        &self.shard
    }

    /// The connection detail another shard needs to reach this one,
    /// parsed out of this pool's connection string.
    pub fn connection_detail(&self) -> (r: Result<ForeignServer, StoreError>)
        requires
            self.wf(),
        ensures
            r is Ok <==> spec_parse_url(self.url()) is Ok,
            r matches Ok(fs) ==> {
                &&& spec_parse_url(self.url()) matches Ok(d)
                &&& fs@.user == d.user
                &&& fs@.password == d.password
                &&& fs@.host == d.host
                &&& fs@.port == d.port
                &&& fs@.dbname == d.dbname
                &&& fs@.shard == self.shard_name()
                &&& fs.wf()
            },
            r matches Err(e) ==> (spec_parse_url(self.url()) matches Err(u) && e
                == StoreError::BadUrl(u)),
    {
        ForeignServer::new(self.shard.clone(), self.postgres_url.as_str())
    }

    /// Enter the `with_conn` bracket: take one limiter permit. Granted
    /// exactly when fewer closures run than the pool has slots; a caller
    /// that must block retries until granted.
    pub fn begin_conn(&mut self) -> (granted: bool)
        requires
            old(self).wf(),
        ensures
            final(self).wf(),
            granted == (old(self).running() < old(self).size()),
            granted ==> final(self).running() == old(self).running() + 1,
            !granted ==> final(self).running() == old(self).running(),
            final(self).same_config(old(self)),
            final(self).waits() == old(self).waits(),
            final(self).wait_oldest() == old(self).wait_oldest(),
            final(self).checked_out() == old(self).checked_out(),
            final(self).connection_errors() == old(self).connection_errors(),
    {
        let granted = self.limiter.try_acquire();
        if granted {
            self.running = self.running + 1;
        }
        granted
    }

    /// Leave the `with_conn` bracket: the closure finished, return its
    /// permit.
    pub fn end_conn(&mut self)
        requires
            old(self).wf(),
            old(self).running() > 0,
        ensures
            final(self).wf(),
            final(self).running() == old(self).running() - 1,
            final(self).same_config(old(self)),
            final(self).waits() == old(self).waits(),
            final(self).wait_oldest() == old(self).wait_oldest(),
            final(self).checked_out() == old(self).checked_out(),
            final(self).connection_errors() == old(self).connection_errors(),
    {
        self.running = self.running - 1;
        self.limiter.release();
    }

    /// A checkout timed out: feed the wait into the statistics and
    /// return the value the wait gauge is set to. (The caller also logs
    /// the starvation.)
    pub fn record_wait(&mut self, duration_ms: u64) -> (r: u64)
        requires
            old(self).wf(),
        ensures
            final(self).wf(),
            Self::wait_recorded(old(self), final(self), duration_ms),
            WaitStats::spec_average(final(self).waits()) matches Some(avg) ==> r == avg,
            WaitStats::spec_average(final(self).waits()) is None ==> r == 0,
            final(self).same_config(old(self)),
            final(self).running() == old(self).running(),
            final(self).checked_out() == old(self).checked_out(),
            final(self).connection_errors() == old(self).connection_errors(),
    {
        self.wait_stats.add_and_gauge(duration_ms)
    }

    /// A connection was checked out after `duration_ms` of waiting: the
    /// checked-out gauge rises by one, the wait is recorded, and the
    /// returned value is what the wait gauge is set to.
    pub fn record_checkout(&mut self, duration_ms: u64) -> (r: u64)
        requires
            old(self).wf(),
            old(self).checked_out() < u64::MAX,
        ensures
            final(self).wf(),
            final(self).checked_out() == old(self).checked_out() + 1,
            Self::wait_recorded(old(self), final(self), duration_ms),
            WaitStats::spec_average(final(self).waits()) matches Some(avg) ==> r == avg,
            WaitStats::spec_average(final(self).waits()) is None ==> r == 0,
            final(self).same_config(old(self)),
            final(self).running() == old(self).running(),
            final(self).connection_errors() == old(self).connection_errors(),
    {
        self.checked_out = self.checked_out + 1;
        self.wait_stats.add_and_gauge(duration_ms)
    }

    /// A connection was checked back in: the checked-out gauge drops by
    /// one.
    pub fn record_checkin(&mut self)
        requires
            old(self).wf(),
            old(self).checked_out() > 0,
        ensures
            final(self).wf(),
            final(self).checked_out() == old(self).checked_out() - 1,
            final(self).same_config(old(self)),
            final(self).waits() == old(self).waits(),
            final(self).wait_oldest() == old(self).wait_oldest(),
            final(self).running() == old(self).running(),
            final(self).connection_errors() == old(self).connection_errors(),
    {
        self.checked_out = self.checked_out - 1;
    }

    /// A connection error was reported: the error counter rises by one.
    /// (The caller also logs the error.)
    pub fn record_error(&mut self)
        requires
            old(self).wf(),
            old(self).connection_errors() < u64::MAX,
        ensures
            final(self).wf(),
            final(self).connection_errors() == old(self).connection_errors() + 1,
            final(self).same_config(old(self)),
            final(self).waits() == old(self).waits(),
            final(self).wait_oldest() == old(self).wait_oldest(),
            final(self).running() == old(self).running(),
            final(self).checked_out() == old(self).checked_out(),
    {
        self.connection_errors = self.connection_errors + 1;
    }

    /// What the checked-out-connection gauge shows.
    pub fn checked_out_count(&self) -> (r: u64)
        ensures
            r == self.checked_out(),
    {
        self.checked_out
    }

    /// What the connection-error counter shows.
    pub fn error_count(&self) -> (r: u64)
        ensures
            r == self.connection_errors(),
    {
        self.connection_errors
    }

    /// The current average checkout wait, or nothing without data.
    pub fn wait_average(&self) -> (r: Option<u64>)
        requires
            self.wf(),
        ensures
            r == WaitStats::spec_average(self.waits()),
    {
        self.wait_stats.average()
    }
}

} // verus!
