//! Batched progress accounting for one worker: deltas are emitted every
//! `batch` trials and once more for the remainder, so that they add up to the
//! number of trials made.

use vstd::prelude::*;

verus! {

/// Sum of a sequence of deltas.
pub open spec fn delta_sum(s: Seq<u64>) -> int
    decreases s.len(),
{
    if s.len() == 0 {
        0
    } else {
        delta_sum(s.drop_last()) + s.last()
    }
}

/// Counts trials and decides when a progress delta is due.
pub struct ProgressTracker {
    trials: u64,
    reported: u64,
    batch: u64,
    emitted: Ghost<Seq<u64>>,
}

impl ProgressTracker {
    /// Trials counted so far.
    pub closed spec fn trials(&self) -> nat {
        self.trials as nat
    }

    /// Trials already covered by emitted deltas.
    pub closed spec fn reported(&self) -> nat {
        self.reported as nat
    }

    /// Trials per regular delta.
    pub closed spec fn batch(&self) -> nat {
        self.batch as nat
    }

    /// Every delta emitted so far, in order.
    pub closed spec fn emitted(&self) -> Seq<u64> {
        self.emitted@
    }

    pub closed spec fn wf(&self) -> bool {
        &&& self.batch > 0
        &&& self.reported <= self.trials
        &&& delta_sum(self.emitted@) == self.reported
    }

    /// What a well-formed tracker guarantees: the emitted deltas add up to the
    /// reported trials, which never exceed the trials counted.
    pub proof fn lemma_counts(&self)
        requires
            self.wf(),
        ensures
            self.batch() > 0,
            self.reported() <= self.trials(),
            delta_sum(self.emitted()) == self.reported(),
    {
    }

    /// Trials already covered by emitted deltas.
    pub fn reported_count(&self) -> (r: u64)
        ensures
            r == self.reported(),
    {
        self.reported
    }

    /// A tracker that has counted nothing.
    pub fn new(batch: u64) -> (r: Self)
        requires
            batch > 0,
        ensures
            r.wf(),
            r.trials() == 0,
            r.reported() == 0,
            r.batch() == batch,
            r.emitted() == Seq::<u64>::empty(),
    {
        ProgressTracker { trials: 0, reported: 0, batch, emitted: Ghost(Seq::empty()) }
    }

    /// Counts one trial; returns the delta that is due once `batch` trials
    /// have gone unreported, and records it as emitted.
    pub fn record_trial(&mut self) -> (r: Option<u64>)
        requires
            old(self).wf(),
            old(self).trials() < u64::MAX,
        ensures
            final(self).wf(),
            final(self).batch() == old(self).batch(),
            final(self).trials() == old(self).trials() + 1,
            r == (if old(self).trials() + 1 - old(self).reported() >= old(self).batch() {
                Some((old(self).trials() + 1 - old(self).reported()) as u64)
            } else {
                None::<u64>
            }),
            r matches Some(d) ==> final(self).emitted() == old(self).emitted().push(d)
                && final(self).reported() == final(self).trials(),
            r is None ==> final(self).emitted() == old(self).emitted() && final(self).reported()
                == old(self).reported(),
    {
        self.trials = self.trials + 1;
        let pending = self.trials - self.reported;
        if pending >= self.batch {
            self.reported = self.trials;
            proof {
                let e = self.emitted@.push(pending);
                assert(e.drop_last() =~= self.emitted@);
                self.emitted = Ghost(e);
            }
            Some(pending)
        } else {
            None
        }
    }

    /// Emits the remainder, if any: afterwards the emitted deltas add up to
    /// exactly the number of trials counted.
    pub fn finish(&mut self) -> (r: Option<u64>)
        requires
            old(self).wf(),
        ensures
            final(self).wf(),
            final(self).trials() == old(self).trials(),
            final(self).reported() == final(self).trials(),
            delta_sum(final(self).emitted()) == final(self).trials(),
            r == (if old(self).trials() > old(self).reported() {
                Some((old(self).trials() - old(self).reported()) as u64)
            } else {
                None::<u64>
            }),
            r matches Some(d) ==> final(self).emitted() == old(self).emitted().push(d),
            r is None ==> final(self).emitted() == old(self).emitted(),
    {
        if self.trials > self.reported {
            let pending = self.trials - self.reported;
            self.reported = self.trials;
            proof {
                let e = self.emitted@.push(pending);
                assert(e.drop_last() =~= self.emitted@);
                self.emitted = Ghost(e);
            }
            Some(pending)
        } else {
            None
        }
    }
}

} // verus!
