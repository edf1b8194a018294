use vstd::prelude::*;
use vstd::arithmetic::div_mod::{lemma_div_is_ordered, lemma_div_multiples_vanish};

verus! {

// A bounded moving average of connection checkout waits, in milliseconds.
// The pool's event hooks feed every checkout (or timeout) duration in;
// the metrics exporter reads the current average. Once the ring is full,
// each new sample replaces the oldest one.

/// How many recent samples the ring retains.
pub const WAIT_SAMPLE_CAPACITY: usize = 512;

/// The sum of a sequence of samples.
pub open spec fn sum(s: Seq<u64>) -> int
    decreases s.len(),
{
    if s.len() == 0 {
        0
    } else {
        sum(s.drop_last()) + s.last()
    }
}

proof fn lemma_sum_bounds(s: Seq<u64>)
    ensures
        0 <= sum(s) <= s.len() * (u64::MAX as int),
    decreases s.len(),
{
    if s.len() > 0 {
        lemma_sum_bounds(s.drop_last());
        assert(s.len() * (u64::MAX as int) == (s.len() - 1) * (u64::MAX as int) + (
        u64::MAX as int)) by (nonlinear_arith);
    }
}

/// A fixed-capacity ring of recent wait durations.
pub struct WaitStats {
    samples: Vec<u64>,
    next: usize,
}

impl WaitStats {
    /// The retained samples; their order carries no meaning.
    pub closed spec fn view(&self) -> Seq<u64> {
        self.samples@
    }

    pub open spec fn wf(&self) -> bool {
        self@.len() <= WAIT_SAMPLE_CAPACITY && self.oldest() < WAIT_SAMPLE_CAPACITY
    }

    /// Where the next overwrite lands once the ring is full.
    pub closed spec fn oldest(&self) -> int {
        self.next as int
    }

    /// The average the ring reports: none without data, otherwise the
    /// integer mean of the retained samples.
    pub open spec fn spec_average(s: Seq<u64>) -> Option<u64> {
        if s.len() == 0 {
            None
        } else {
            Some((sum(s) / s.len() as int) as u64)
        }
    }

    pub fn new() -> (r: WaitStats)
        ensures
            r.wf(),
            r@.len() == 0,
    {
        WaitStats { samples: Vec::new(), next: 0 }
    }

    /// Record one wait. Until the ring is full the sample is appended;
    /// afterwards it replaces the oldest retained sample.
    pub fn add(&mut self, duration_ms: u64)
        requires
            old(self).wf(),
        ensures
            final(self).wf(),
            old(self)@.len() < WAIT_SAMPLE_CAPACITY ==> final(self)@ == old(self)@.push(
                duration_ms,
            ),
            old(self)@.len() == WAIT_SAMPLE_CAPACITY ==> final(self)@ == old(self)@.update(
                old(self).oldest(),
                duration_ms,
            ) && final(self).oldest() == (old(self).oldest() + 1) % (
            WAIT_SAMPLE_CAPACITY as int),
    {
        if self.samples.len() < WAIT_SAMPLE_CAPACITY {
            self.samples.push(duration_ms);
        } else {
            self.samples.set(self.next, duration_ms);
            self.next = if self.next + 1 == WAIT_SAMPLE_CAPACITY {
                0
            } else {
                self.next + 1
            };
        }
    }

    /// The current average wait, or nothing when no sample arrived yet.
    pub fn average(&self) -> (r: Option<u64>)
        requires
            self.wf(),
        ensures
            r == Self::spec_average(self@),
    {
        let n = self.samples.len();
        if n == 0 {
            return None;
        }
        let mut total: u128 = 0;
        let mut i: usize = 0;
        while i < n
            invariant
                n == self@.len(),
                n <= WAIT_SAMPLE_CAPACITY,
                0 <= i <= n,
                total as int == sum(self@.subrange(0, i as int)),
                total as int <= i * (u64::MAX as int),
            decreases n - i,
        {
            proof {
                let p1 = self@.subrange(0, i + 1);
                assert(p1.drop_last() =~= self@.subrange(0, i as int));
                assert((i + 1) * (u64::MAX as int) == i * (u64::MAX as int) + (
                u64::MAX as int)) by (nonlinear_arith);
                assert(i * (u64::MAX as int) <= WAIT_SAMPLE_CAPACITY * (u64::MAX as int)) by (
                nonlinear_arith)
                    requires
                        0 <= i <= WAIT_SAMPLE_CAPACITY,
                ;
            }
            total = total + self.samples[i] as u128;
            i += 1;
        }
        proof {
            assert(self@.subrange(0, n as int) =~= self@);
        }
        let avg128 = total / (n as u128);
        proof {
            lemma_sum_bounds(self@);
            lemma_div_is_ordered(sum(self@), n * (u64::MAX as int), n as int);
            lemma_div_multiples_vanish(u64::MAX as int, n as int);
        }
        Some(avg128 as u64)
    }

    /// Record one sample — exactly as `add` does — and return what the
    /// wait gauge is set to: the new average, or zero while there is
    /// none.
    pub fn add_and_gauge(&mut self, duration_ms: u64) -> (r: u64)
        requires
            old(self).wf(),
        ensures
            final(self).wf(),
            old(self)@.len() < WAIT_SAMPLE_CAPACITY ==> final(self)@ == old(self)@.push(
                duration_ms,
            ),
            old(self)@.len() == WAIT_SAMPLE_CAPACITY ==> final(self)@ == old(self)@.update(
                old(self).oldest(),
                duration_ms,
            ) && final(self).oldest() == (old(self).oldest() + 1) % (
            WAIT_SAMPLE_CAPACITY as int),
            Self::spec_average(final(self)@) matches Some(avg) ==> r == avg,
            Self::spec_average(final(self)@) is None ==> r == 0,
    {
        self.add(duration_ms);
        match self.average() {
            Some(avg) => avg,
            None => 0,
        }
    }
}

} // verus!
