//! The result coordinator's decisions: the result log, the progress total,
//! the completion estimate, and the checkpoint and cancellation protocol.
//! The caller owns the channels, the timer and the storage; it hands each
//! event to the coordinator and carries out what comes back.

use vstd::prelude::*;
use crate::summary::RunSummary;
use crate::worker::MatchRecord;

verus! {

/// Where a run stands.
#[derive(Clone, Copy, Debug, PartialEq, Eq, Structural)]
pub enum RunPhase {
    /// Workers are searching.
    Running,
    /// All workers have been joined; the channels are closing.
    Draining,
    /// The final snapshot is being written.
    Finalizing,
    /// Nothing more happens.
    Done,
}

/// The attempts left of a budget.
pub open spec fn remaining_spec(budget: u64, processed: u64) -> u64 {
    if processed >= budget {
        0
    } else {
        (budget - processed) as u64
    }
}

/// Seconds until the budget is used up at the rate observed so far, capped
/// at the largest `u64`; unknown before any progress or once nothing remains.
pub open spec fn eta_spec(budget: u64, processed: u64, elapsed_ms: u64) -> Option<u64> {
    let rest = remaining_spec(budget, processed);
    if processed == 0 || rest == 0 {
        None
    } else {
        let secs = (rest as int * elapsed_ms as int) / (processed as int * 1000);
        Some(if secs > u64::MAX { u64::MAX } else { secs as u64 })
    }
}

/// The single owner of the result log and the progress total.
pub struct Coordinator {
    /// Matches in arrival order.
    pub log: Vec<MatchRecord>,
    /// Attempts reported so far.
    pub processed: u64,
    /// The run's total attempt budget.
    pub budget: u64,
    pub phase: RunPhase,
}

impl Coordinator {
    /// A running coordinator with an empty log.
    pub fn new(budget: u64) -> (r: Self)
        ensures
            r.log@.len() == 0,
            r.processed == 0,
            r.budget == budget,
            r.phase == RunPhase::Running,
    {
        Coordinator { log: Vec::new(), processed: 0, budget, phase: RunPhase::Running }
    }

    /// Appends a match to the log.
    pub fn on_match(&mut self, record: MatchRecord)
        ensures
            final(self).log@ == old(self).log@.push(record),
            final(self).processed == old(self).processed,
            final(self).budget == old(self).budget,
            final(self).phase == old(self).phase,
    {
        self.log.push(record);
    }

    /// Adds a progress delta to the total, which saturates at the largest `u64`.
    pub fn on_progress(&mut self, delta: u64)
        ensures
            final(self).processed == (if old(self).processed as int + delta > u64::MAX {
                u64::MAX
            } else {
                (old(self).processed + delta) as u64
            }),
            final(self).processed >= old(self).processed,
            final(self).log@ == old(self).log@,
            final(self).budget == old(self).budget,
            final(self).phase == old(self).phase,
    {
        if delta > u64::MAX - self.processed {
            self.processed = u64::MAX;
        } else {
            self.processed = self.processed + delta;
        }
    }

    /// The attempts not yet reported.
    pub fn remaining(&self) -> (r: u64)
        ensures
            r == remaining_spec(self.budget, self.processed),
    {
        if self.processed >= self.budget {
            0
        } else {
            self.budget - self.processed
        }
    }

    /// The estimated seconds to completion after `elapsed_ms` milliseconds.
    pub fn eta_seconds(&self, elapsed_ms: u64) -> (r: Option<u64>)
        ensures
            r == eta_spec(self.budget, self.processed, elapsed_ms),
    {
        let rest = self.remaining();
        if self.processed == 0 || rest == 0 {
            return None;
        }
        assert(rest as int * elapsed_ms as int <= u64::MAX as int * u64::MAX as int) by (nonlinear_arith)
            requires
                rest <= u64::MAX,
                elapsed_ms <= u64::MAX,
        ;
        let num: u128 = rest as u128 * elapsed_ms as u128;
        let den: u128 = self.processed as u128 * 1000;
        let secs: u128 = num / den;
        if secs > u64::MAX as u128 {
            Some(u64::MAX)
        } else {
            Some(secs as u64)
        }
    }

    /// On a checkpoint tick: whether a snapshot is to be written, which is
    /// exactly when the log holds a result.
    pub fn checkpoint_due(&self) -> (r: bool)
        ensures
            r == (self.log@.len() > 0),
    {
        self.log.len() > 0
    }

    /// An external interrupt: the run stops taking work and goes straight to
    /// its final write. Returns whether a snapshot is to be persisted before
    /// exit: always when the log holds a result, never when it is empty.
    pub fn interrupt(&mut self) -> (r: bool)
        ensures
            r == (old(self).log@.len() > 0),
            final(self).phase == (if old(self).phase == RunPhase::Done {
                RunPhase::Done
            } else {
                RunPhase::Finalizing
            }),
            final(self).log@ == old(self).log@,
            final(self).processed == old(self).processed,
            final(self).budget == old(self).budget,
    {
        if self.phase != RunPhase::Done {
            self.phase = RunPhase::Finalizing;
        }
        self.log.len() > 0
    }

    /// All workers have been joined.
    pub fn workers_joined(&mut self)
        ensures
            final(self).phase == (if old(self).phase == RunPhase::Running {
                RunPhase::Draining
            } else {
                old(self).phase
            }),
            final(self).log@ == old(self).log@,
            final(self).processed == old(self).processed,
            final(self).budget == old(self).budget,
    {
        if self.phase == RunPhase::Running {
            self.phase = RunPhase::Draining;
        }
    }

    /// Both channels are drained: the final write begins. Returns whether a
    /// snapshot is to be persisted, which is when the log holds a result.
    pub fn begin_final(&mut self) -> (r: bool)
        ensures
            r == (old(self).log@.len() > 0),
            final(self).phase == (if old(self).phase == RunPhase::Done {
                RunPhase::Done
            } else {
                RunPhase::Finalizing
            }),
            final(self).log@ == old(self).log@,
            final(self).processed == old(self).processed,
            final(self).budget == old(self).budget,
    {
        if self.phase != RunPhase::Done {
            self.phase = RunPhase::Finalizing;
        }
        self.log.len() > 0
    }

    /// The final write has been made or skipped.
    pub fn finish(&mut self)
        ensures
            final(self).phase == RunPhase::Done,
            final(self).log@ == old(self).log@,
            final(self).processed == old(self).processed,
            final(self).budget == old(self).budget,
    {
        self.phase = RunPhase::Done;
    }

    /// Whether the coordinator still takes events.
    pub fn is_running(&self) -> (r: bool)
        ensures
            r == (self.phase == RunPhase::Running || self.phase == RunPhase::Draining),
    {
        self.phase == RunPhase::Running || self.phase == RunPhase::Draining
    }

    /// A complete snapshot of the log under the given header values.
    pub fn snapshot(&self, timestamp: String, deployer: String, code_hash: String) -> (r: RunSummary)
        ensures
            r.timestamp@ == timestamp@,
            r.deployer@ == deployer@,
            r.code_hash@ == code_hash@,
            r.results@.len() == self.log@.len(),
            forall|i: int|
                0 <= i < self.log@.len() ==> (#[trigger] r.results@[i]).salt@ == self.log@[i].salt@
                    && r.results@[i].address@ == self.log@[i].address@ && r.results@[i].pattern@
                    == self.log@[i].pattern@ && r.results@[i].attempt == self.log@[i].attempt,
    {
        let mut results: Vec<MatchRecord> = Vec::new();
        let mut i: usize = 0;
        while i < self.log.len()
            invariant
                i <= self.log@.len(),
                results@.len() == i,
                forall|k: int|
                    0 <= k < i ==> (#[trigger] results@[k]).salt@ == self.log@[k].salt@
                        && results@[k].address@ == self.log@[k].address@ && results@[k].pattern@
                        == self.log@[k].pattern@ && results@[k].attempt == self.log@[k].attempt,
            decreases self.log@.len() - i,
        {
            results.push(self.log[i].clone());
            i = i + 1;
        }
        RunSummary { timestamp, deployer, code_hash, results }
    }
}

} // verus!
