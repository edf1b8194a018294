use vstd::prelude::*;

verus! {

// Migration coordination for one shard. Concurrently starting processes
// share only the shard's database, which offers two session-scoped
// advisory locks. Lock 1 is a try-lock whose first holder becomes the
// migration leader; lock 2 is a blocking lock the leader holds for the
// whole migration so that everyone else waits until the work committed.
//
// The protocol of one process, in order:
//   try-lock 1 (yields the leader flag) -> blocking-lock 2 ->
//   if leader: do the work and commit -> release both locks.
//
// The model below is that protocol as an explicit state machine: the
// shared state of the shard's locks and the phase of every process, the
// four actions, and the traces they generate.

/// Where one process stands in its `setup` call.
#[derive(Clone, Copy, PartialEq, Eq, Structural, Debug)]
pub enum Phase {
    /// Has not touched the locks yet.
    Idle,
    /// Observed its try-lock result and is waiting on lock 2.
    Waiting { leader: bool },
    /// Holds lock 2 (the leader does its work here).
    Holding { leader: bool },
    /// Released the locks; its `setup` call has returned.
    Done { leader: bool },
}

/// What a process may do next.
#[derive(Clone, Copy, PartialEq, Eq, Structural, Debug)]
pub enum Action {
    /// Try advisory lock 1; the result is the leader flag.
    TryLock,
    /// Block until advisory lock 2 is free, then take it.
    AcquireBlocking,
    /// Leader only: the migration, foreign-server and mapping work is
    /// fully committed.
    CommitWork,
    /// Leader only: the migration work failed. The leader still releases
    /// both locks — so waiting processes are unblocked rather than
    /// deadlocked — and then aborts the process.
    FailWork,
    /// Release both locks and return from `setup` (a failed leader
    /// aborts right after).
    ReleaseLocks,
}

/// The whole flag of a phase: whether this process won the try-lock.
pub open spec fn phase_leader(p: Phase) -> bool {
    match p {
        Phase::Idle => false,
        Phase::Waiting { leader } => leader,
        Phase::Holding { leader } => leader,
        Phase::Done { leader } => leader,
    }
}

/// Past the setup barrier: the process has acquired lock 2 (and possibly
/// already finished).
pub open spec fn past_barrier(p: Phase) -> bool {
    p is Holding || p is Done
}

/// The shared coordination state of one shard, with the phase of every
/// process of the cohort.
pub ghost struct CoordState {
    /// Holder of advisory lock 1, if any.
    pub lock1: Option<int>,
    /// Holder of advisory lock 2, if any.
    pub lock2: Option<int>,
    /// Whether the leader's migration work has fully committed.
    pub committed: bool,
    /// Whether the leader's migration work failed; the leader aborts
    /// the process after releasing the locks.
    pub failed: bool,
    /// Phase of each process, indexed by process id.
    pub phase: Seq<Phase>,
}

/// One process taking one action.
pub ghost struct Event {
    pub pid: int,
    pub action: Action,
}

/// A fresh cohort: both locks free, nothing committed or failed, every
/// process idle.
pub open spec fn init_state(n: nat) -> CoordState {
    CoordState {
        lock1: None,
        lock2: None,
        committed: false,
        failed: false,
        phase: Seq::new(n, |i: int| Phase::Idle),
    }
}

/// When an action can happen. A blocking acquisition is enabled only once
/// the lock is free; the leader releases only after its work either
/// committed or was recorded as failed (and in the latter case aborts
/// right after the release).
pub open spec fn enabled(s: CoordState, e: Event) -> bool {
    &&& 0 <= e.pid < s.phase.len()
    &&& match e.action {
        Action::TryLock => s.phase[e.pid] is Idle,
        Action::AcquireBlocking => s.phase[e.pid] is Waiting && s.lock2 is None,
        Action::CommitWork => s.phase[e.pid] is Holding && phase_leader(s.phase[e.pid]),
        Action::FailWork => s.phase[e.pid] is Holding && phase_leader(s.phase[e.pid]),
        Action::ReleaseLocks => s.phase[e.pid] is Holding && (phase_leader(s.phase[e.pid])
            ==> s.committed || s.failed),
    }
}

/// The effect of one action.
pub open spec fn step(s: CoordState, e: Event) -> CoordState {
    match e.action {
        Action::TryLock => {
            let leader = s.lock1 is None;
            CoordState {
                lock1: if leader {
                    Some(e.pid)
                } else {
                    s.lock1
                },
                lock2: s.lock2,
                committed: s.committed,
                failed: s.failed,
                phase: s.phase.update(e.pid, Phase::Waiting { leader }),
            }
        },
        Action::AcquireBlocking => CoordState {
            lock1: s.lock1,
            lock2: Some(e.pid),
            committed: s.committed,
            failed: s.failed,
            phase: s.phase.update(e.pid, Phase::Holding { leader: phase_leader(s.phase[e.pid]) }),
        },
        Action::CommitWork => CoordState {
            lock1: s.lock1,
            lock2: s.lock2,
            committed: true,
            failed: s.failed,
            phase: s.phase,
        },
        Action::FailWork => CoordState {
            lock1: s.lock1,
            lock2: s.lock2,
            committed: s.committed,
            failed: true,
            phase: s.phase,
        },
        Action::ReleaseLocks => CoordState {
            lock1: if phase_leader(s.phase[e.pid]) {
                None
            } else {
                s.lock1
            },
            lock2: None,
            committed: s.committed,
            failed: s.failed,
            phase: s.phase.update(e.pid, Phase::Done { leader: phase_leader(s.phase[e.pid]) }),
        },
    }
}

/// A trace is valid when every event is enabled in the state it meets.
pub open spec fn valid_trace(s: CoordState, tr: Seq<Event>) -> bool
    decreases tr.len(),
{
    tr.len() == 0 || (enabled(s, tr[0]) && valid_trace(step(s, tr[0]), tr.drop_first()))
}

/// The state a trace ends in.
pub open spec fn run(s: CoordState, tr: Seq<Event>) -> CoordState
    decreases tr.len(),
{
    if tr.len() == 0 {
        s
    } else {
        run(step(s, tr[0]), tr.drop_first())
    }
}

// ------------------------------------------------------------------
// Leader election exclusivity.
//
// While nobody releases the locks — the racing window of one cohort —
// whoever holds lock 1 is the one process that observed a winning
// try-lock, and everyone else that tried observed losing.

/// The racing-window invariant: the processes marked leader are exactly
/// the holder of lock 1.
pub open spec fn race_inv(n: nat, s: CoordState) -> bool {
    &&& s.phase.len() == n
    &&& forall|p: int|
        0 <= p < n && phase_leader(#[trigger] s.phase[p]) ==> s.lock1 == Some(p)
    &&& match s.lock1 {
        Some(p) => 0 <= p < n && phase_leader(s.phase[p]),
        None => true,
    }
}

proof fn lemma_race_step(n: nat, s: CoordState, e: Event)
    requires
        race_inv(n, s),
        enabled(s, e),
        e.action != Action::ReleaseLocks,
    ensures
        race_inv(n, step(s, e)),
        s.lock1 is Some ==> step(s, e).lock1 == s.lock1,
        e.action == Action::TryLock ==> step(s, e).lock1 is Some,
{
    let s1 = step(s, e);
    assert forall|p: int| 0 <= p < n && phase_leader(#[trigger] s1.phase[p]) implies s1.lock1
        == Some(p) by {
        if p != e.pid {
            assert(s1.phase[p] == s.phase[p]);
        }
    }
}

/// Index of the first try-lock event of the trace, or -1 when none.
pub open spec fn first_try(tr: Seq<Event>) -> int
    decreases tr.len(),
{
    if tr.len() == 0 {
        -1
    } else if tr[0].action == Action::TryLock {
        0
    } else if first_try(tr.drop_first()) == -1 {
        -1
    } else {
        first_try(tr.drop_first()) + 1
    }
}

proof fn lemma_race_run(n: nat, s: CoordState, tr: Seq<Event>)
    requires
        race_inv(n, s),
        valid_trace(s, tr),
        forall|i: int| 0 <= i < tr.len() ==> (#[trigger] tr[i].action) != Action::ReleaseLocks,
    ensures
        race_inv(n, run(s, tr)),
        s.lock1 is Some ==> run(s, tr).lock1 == s.lock1,
        s.lock1 is None && first_try(tr) != -1 ==> 0 <= first_try(tr) < tr.len() && run(
            s,
            tr,
        ).lock1 == Some(tr[first_try(tr)].pid),
    decreases tr.len(),
{
    if tr.len() > 0 {
        let e = tr[0];
        let s1 = step(s, e);
        let rest = tr.drop_first();
        lemma_race_step(n, s, e);
        assert(forall|i: int| 0 <= i < rest.len() ==> #[trigger] rest[i] == tr[i + 1]);
        lemma_race_run(n, s1, rest);
        if s.lock1 is None && first_try(tr) != -1 {
            if e.action == Action::TryLock {
                assert(s1.lock1 == Some(e.pid));
            } else {
                assert(s1.lock1 is None);
                assert(tr[first_try(tr)] == rest[first_try(rest)]);
            }
        }
    }
}

/// Leader election is exclusive: among processes racing `setup` against
/// one shard — a cohort in which nobody has released the locks yet — once
/// anyone has tried lock 1, exactly one process has observed the leader
/// flag, namely the first one that tried, and every other process that
/// observes a flag observes non-leader.
pub proof fn lemma_leader_election_exclusive(n: nat, tr: Seq<Event>)
    requires
        valid_trace(init_state(n), tr),
        forall|i: int| 0 <= i < tr.len() ==> (#[trigger] tr[i].action) != Action::ReleaseLocks,
        first_try(tr) != -1,
    ensures
        0 <= first_try(tr) < tr.len(),
        0 <= tr[first_try(tr)].pid < n,
        phase_leader(run(init_state(n), tr).phase[tr[first_try(tr)].pid]),
        forall|q: int|
            0 <= q < n && phase_leader(#[trigger] run(init_state(n), tr).phase[q]) ==> q == tr[
                first_try(tr)
            ].pid,
{
    let s0 = init_state(n);
    lemma_race_run(n, s0, tr);
    let sf = run(s0, tr);
    let p = tr[first_try(tr)].pid;
    assert(sf.lock1 == Some(p));
    assert(0 <= p < n && phase_leader(sf.phase[p]));
}

// ------------------------------------------------------------------
// The setup barrier.
//
// A non-leader acquires lock 2 only after the leader has released it,
// and the leader releases it only after its work either committed or
// was recorded as failed (after which the leader aborts). So no
// non-leader gets past the barrier while the migration's outcome is
// still open — provided the leader's one-round-trip acquisition took
// lock 2 before any non-leader could, which is the premise below.

/// The first blocking acquisition of the trace, if any, is made by the
/// process that won the try-lock. This is what the leader's combined
/// try-and-block round trip guarantees.
pub open spec fn first_acquire_by_leader(s: CoordState, tr: Seq<Event>) -> bool
    decreases tr.len(),
{
    tr.len() == 0 || if tr[0].action == Action::AcquireBlocking {
        phase_leader(s.phase[tr[0].pid])
    } else {
        first_acquire_by_leader(step(s, tr[0]), tr.drop_first())
    }
}

/// What the barrier guarantees: any non-leader past it sees the
/// migration's outcome settled — committed, or failed (in which case the
/// leader aborts and the shard is known bad), never still open.
pub open spec fn barrier_inv(s: CoordState) -> bool {
    forall|p: int|
        0 <= p < s.phase.len() && past_barrier(#[trigger] s.phase[p]) && !phase_leader(s.phase[p])
            ==> s.committed || s.failed
}

/// Before anyone has acquired lock 2: nobody past the barrier, no
/// outcome yet, lock 2 free.
pub open spec fn stage_racing(s: CoordState) -> bool {
    &&& forall|p: int| 0 <= p < s.phase.len() ==> !past_barrier(#[trigger] s.phase[p])
    &&& !s.committed
    &&& !s.failed
    &&& s.lock2 is None
}

/// From the leader's acquisition on: either the work's outcome is
/// settled, or the leader alone is past the barrier and still holds
/// lock 2.
pub open spec fn stage_guarded(s: CoordState) -> bool {
    s.committed || s.failed || (match s.lock2 {
        Some(p) => {
            &&& 0 <= p < s.phase.len()
            &&& s.phase[p] is Holding
            &&& phase_leader(s.phase[p])
            &&& forall|q: int|
                0 <= q < s.phase.len() && past_barrier(#[trigger] s.phase[q]) ==> q == p
        },
        None => false,
    })
}

proof fn lemma_guarded_step(s: CoordState, e: Event)
    requires
        stage_guarded(s),
        enabled(s, e),
    ensures
        stage_guarded(step(s, e)),
{
    let s1 = step(s, e);
    if !s.committed && !s.failed {
        let p = s.lock2->Some_0;
        match e.action {
            Action::TryLock => {
                assert(s1.phase[p] == s.phase[p]);
                assert forall|q: int|
                    0 <= q < s1.phase.len() && past_barrier(#[trigger] s1.phase[q]) implies q
                    == p by {
                    if q != e.pid {
                        assert(s1.phase[q] == s.phase[q]);
                    }
                }
            },
            Action::AcquireBlocking => {
                assert(false);
            },
            Action::CommitWork => {},
            Action::FailWork => {},
            Action::ReleaseLocks => {
                // only a process past the barrier can release, so it is
                // the leader, whose release requires a settled outcome
                assert(past_barrier(s.phase[e.pid]));
                assert(false);
            },
        }
    }
}

proof fn lemma_guarded_run(s: CoordState, tr: Seq<Event>)
    requires
        stage_guarded(s),
        valid_trace(s, tr),
    ensures
        stage_guarded(run(s, tr)),
    decreases tr.len(),
{
    if tr.len() > 0 {
        lemma_guarded_step(s, tr[0]);
        lemma_guarded_run(step(s, tr[0]), tr.drop_first());
    }
}

proof fn lemma_racing_run(s: CoordState, tr: Seq<Event>)
    requires
        stage_racing(s),
        valid_trace(s, tr),
        first_acquire_by_leader(s, tr),
    ensures
        stage_racing(run(s, tr)) || stage_guarded(run(s, tr)),
    decreases tr.len(),
{
    if tr.len() > 0 {
        let e = tr[0];
        let s1 = step(s, e);
        match e.action {
            Action::TryLock => {
                assert forall|q: int|
                    0 <= q < s1.phase.len() implies !past_barrier(#[trigger] s1.phase[q]) by {
                    if q != e.pid {
                        assert(s1.phase[q] == s.phase[q]);
                    }
                }
                lemma_racing_run(s1, tr.drop_first());
            },
            Action::AcquireBlocking => {
                // the premise: this first acquisition is the leader's
                assert(phase_leader(s.phase[e.pid]));
                assert forall|q: int|
                    0 <= q < s1.phase.len() && past_barrier(#[trigger] s1.phase[q]) implies q
                    == e.pid by {
                    if q != e.pid {
                        assert(s1.phase[q] == s.phase[q]);
                    }
                }
                assert(stage_guarded(s1));
                lemma_guarded_run(s1, tr.drop_first());
            },
            Action::CommitWork => {
                // nobody is past the barrier, so nobody can commit
                assert(false);
            },
            Action::FailWork => {
                // nobody is past the barrier, so nobody can fail
                assert(false);
            },
            Action::ReleaseLocks => {
                // nobody is past the barrier, so nobody can release
                assert(false);
            },
        }
    }
}

/// Non-leaders block behind the leader's work: in a cohort starting from
/// a fresh state, if the leader's one-round-trip acquisition took lock 2
/// first, then at the end of any valid trace every non-leader past the
/// setup barrier sees the migration's outcome settled — committed, or
/// failed with the leader aborting.
pub proof fn lemma_nonleader_blocked_until_commit(n: nat, tr: Seq<Event>)
    requires
        valid_trace(init_state(n), tr),
        first_acquire_by_leader(init_state(n), tr),
    ensures
        barrier_inv(run(init_state(n), tr)),
{
    lemma_racing_run(init_state(n), tr);
}

// ------------------------------------------------------------------
// The executable model of the shared state, for driving the protocol
// against a fake lock provider and for tests.

/// Spec view of an optional process id.
pub open spec fn opt_pid(o: Option<usize>) -> Option<int> {
    match o {
        Some(p) => Some(p as int),
        None => None,
    }
}

/// The coordination state of one shard, as a value: both advisory locks,
/// the work's outcome flags, and every process's phase.
pub struct Coordination {
    pub lock1: Option<usize>,
    pub lock2: Option<usize>,
    pub committed: bool,
    pub failed: bool,
    pub procs: Vec<Phase>,
}

impl View for Coordination {
    type V = CoordState;

    open spec fn view(&self) -> CoordState {
        CoordState {
            lock1: opt_pid(self.lock1),
            lock2: opt_pid(self.lock2),
            committed: self.committed,
            failed: self.failed,
            phase: self.procs@,
        }
    }
}

impl Coordination {
    /// A fresh cohort of `n` processes against one shard.
    pub fn new_cohort(n: usize) -> (r: Coordination)
        ensures
            r@ == init_state(n as nat),
    {
        let mut procs: Vec<Phase> = Vec::new();
        let mut i: usize = 0;
        while i < n
            invariant
                0 <= i <= n,
                procs@.len() == i,
                forall|j: int| 0 <= j < i ==> procs@[j] == Phase::Idle,
            decreases n - i,
        {
            procs.push(Phase::Idle);
            i += 1;
        }
        let r = Coordination { lock1: None, lock2: None, committed: false, failed: false, procs };
        proof {
            assert(r@.phase =~= init_state(n as nat).phase);
        }
        r
    }

    /// Try advisory lock 1. The result — won exactly when the lock was
    /// free — is the process's leader flag for this cohort.
    pub fn try_lock(&mut self, pid: usize) -> (leader: bool)
        requires
            enabled(old(self)@, (Event { pid: pid as int, action: Action::TryLock })),
        ensures
            final(self)@ == step(old(self)@, (Event { pid: pid as int, action: Action::TryLock })),
            leader == (old(self)@.lock1 is None),
    {
        let leader = self.lock1.is_none();
        if leader {
            self.lock1 = Some(pid);
        }
        self.procs.set(pid, Phase::Waiting { leader });
        leader
    }

    /// Whether blocking on lock 2 would return now; the caller's loop
    /// models the blocking wait.
    pub fn lock2_free(&self) -> (r: bool)
        ensures
            r == (self@.lock2 is None),
    {
        self.lock2.is_none()
    }

    /// Take advisory lock 2, once free.
    pub fn acquire_blocking(&mut self, pid: usize)
        requires
            enabled(old(self)@, (Event { pid: pid as int, action: Action::AcquireBlocking })),
        ensures
            final(self)@ == step(old(self)@, (Event { pid: pid as int, action: Action::AcquireBlocking })),
    {
        let leader = match self.procs[pid] {
            Phase::Waiting { leader } => leader,
            _ => false,
        };
        self.lock2 = Some(pid);
        self.procs.set(pid, Phase::Holding { leader });
    }

    /// Record that the leader's migration, foreign-server and mapping
    /// work has fully committed.
    pub fn commit_work(&mut self, pid: usize)
        requires
            enabled(old(self)@, (Event { pid: pid as int, action: Action::CommitWork })),
        ensures
            final(self)@ == step(old(self)@, (Event { pid: pid as int, action: Action::CommitWork })),
    {
        self.committed = true;
    }

    /// Record that the leader's migration work failed. The leader still
    /// releases both locks afterwards — unblocking everyone waiting —
    /// and then aborts the process.
    pub fn fail_work(&mut self, pid: usize)
        requires
            enabled(old(self)@, (Event { pid: pid as int, action: Action::FailWork })),
        ensures
            final(self)@ == step(old(self)@, (Event { pid: pid as int, action: Action::FailWork })),
    {
        self.failed = true;
    }

    /// Release both locks and leave the protocol. The leader may only do
    /// so once its work's outcome is settled — committed or failed; a
    /// failed leader aborts right after the release.
    pub fn release_locks(&mut self, pid: usize)
        requires
            enabled(old(self)@, (Event { pid: pid as int, action: Action::ReleaseLocks })),
        ensures
            final(self)@ == step(old(self)@, (Event { pid: pid as int, action: Action::ReleaseLocks })),
    {
        let leader = match self.procs[pid] {
            Phase::Holding { leader } => leader,
            _ => false,
        };
        if leader {
            self.lock1 = None;
        }
        self.lock2 = None;
        self.procs.set(pid, Phase::Done { leader });
    }
}

} // verus!
