//! Tracks tightening operations across single and batch modes.
//!
//! The tracker owns a global tightening sequence that increases by exactly
//! one on every recorded tightening, in both modes, and that survives mode
//! switches.  In single mode no batch bookkeeping takes place at all.

use vstd::prelude::*;

use crate::batch_manager::{BatchManager, BatchStatus, TighteningInfo};

verus! {

/// Operating mode for tightening operations.
#[derive(Debug, Clone, PartialEq, Eq, Structural)]
pub enum TighteningMode {
    /// Single bolt mode: each tightening is independent and nothing is
    /// tracked beyond the global sequence.
    Single,
    /// Batch mode: multiple tightenings tracked together.
    Batch(BatchManager),
}

/// Tracks tightening operations across both single and batch modes.
#[derive(Debug, Clone, PartialEq, Eq, Structural)]
pub struct TighteningTracker {
    mode: TighteningMode,
    tightening_sequence: u32,
}

impl TighteningTracker {
    /// Global tightening sequence counter.
    pub closed spec fn spec_sequence(&self) -> u32 {
        self.tightening_sequence
    }

    /// Whether the tracker is in batch mode.
    pub open spec fn spec_is_batch(&self) -> bool {
        self.spec_batch() is Some
    }

    /// The batch manager, if the tracker is in batch mode.
    pub closed spec fn spec_batch(&self) -> Option<BatchManager> {
        match self.mode {
            TighteningMode::Single => None,
            TighteningMode::Batch(b) => Some(b),
        }
    }

    /// Batch counter as reported: zero in single mode.
    pub open spec fn spec_counter(&self) -> u32 {
        match self.spec_batch() {
            None => 0,
            Some(b) => b.spec_counter(),
        }
    }

    /// Batch size as reported: zero in single mode.
    pub open spec fn spec_batch_size(&self) -> u32 {
        match self.spec_batch() {
            None => 0,
            Some(b) => b.spec_target_size(),
        }
    }

    /// Whether the batch has completed: never in single mode.
    pub open spec fn spec_is_complete(&self) -> bool {
        match self.spec_batch() {
            None => false,
            Some(b) => b.spec_completed(),
        }
    }

    /// Create a new tracker in single mode with sequence zero.
    pub fn new() -> (r: Self)
        ensures
            !r.spec_is_batch(),
            r.spec_sequence() == 0,
    {
        Self { mode: TighteningMode::Single, tightening_sequence: 0 }
    }

    /// Enable batch mode with the given size.  A fresh batch is always
    /// installed, so any previous batch state is discarded; the global
    /// sequence is preserved.
    pub fn enable_batch(&mut self, size: u32)
        ensures
            final(self).spec_is_batch(),
            final(self).spec_counter() == 0,
            final(self).spec_batch_size() == size,
            !final(self).spec_is_complete(),
            final(self).spec_sequence() == old(self).spec_sequence(),
            final(self).spec_batch() matches Some(b) ==> {
                &&& !b.spec_has_nok()
                &&& b.spec_sequence() == 0
            },
    {
        self.mode = TighteningMode::Batch(BatchManager::new(size));
    }

    /// Check if in batch mode.
    pub fn is_batch_mode(&self) -> (r: bool)
        ensures
            r == self.spec_is_batch(),
    {
        matches!(self.mode, TighteningMode::Batch(_))
    }

    /// Record a tightening result.
    ///
    /// The global sequence increases by exactly one whatever the mode and
    /// whatever the result.  In single mode the reported counter is zero and
    /// the status is `NotUsed`; in batch mode the batch manager is advanced
    /// and the reported tightening id is overridden with the global sequence.
    pub fn add_tightening(&mut self, ok: bool) -> (info: TighteningInfo)
        requires
            old(self).spec_sequence() < u32::MAX,
            old(self).spec_batch() matches Some(b) ==> {
                &&& b.spec_counter() < u32::MAX
                &&& b.spec_sequence() < u32::MAX
            },
        ensures
            final(self).spec_sequence() == old(self).spec_sequence() + 1,
            final(self).spec_is_batch() == old(self).spec_is_batch(),
            info.tightening_id == final(self).spec_sequence(),
            !old(self).spec_is_batch() ==> {
                &&& final(self).spec_batch() == old(self).spec_batch()
                &&& info.counter == 0
                &&& info.batch_status == BatchStatus::NotUsed
            },
            old(self).spec_batch() matches Some(pre) ==> {
                let post = final(self).spec_batch()->Some_0;
                &&& final(self).spec_batch() is Some
                &&& post.spec_counter() == if ok && !pre.spec_completed() {
                    pre.spec_counter() + 1
                } else {
                    pre.spec_counter() as int
                }
                &&& post.spec_target_size() == pre.spec_target_size()
                &&& post.spec_has_nok() == (pre.spec_has_nok() || !ok)
                &&& post.spec_completed() == (pre.spec_completed()
                    || post.spec_counter() >= pre.spec_target_size())
                &&& post.spec_sequence() == pre.spec_sequence() + 1
                &&& info.counter == post.spec_counter()
                &&& info.batch_status == (if post.spec_counter() >= post.spec_target_size() {
                    if post.spec_has_nok() {
                        BatchStatus::CompletedNok
                    } else {
                        BatchStatus::CompletedOk
                    }
                } else {
                    BatchStatus::NotFinished
                })
            },
    {
        self.tightening_sequence = self.tightening_sequence + 1;

        match &mut self.mode {
            TighteningMode::Single => {
                TighteningInfo {
                    counter: 0,
                    tightening_id: self.tightening_sequence,
                    batch_status: BatchStatus::NotUsed,
                }
            },
            TighteningMode::Batch(batch_manager) => {
                let mut info = batch_manager.add_tightening(ok);
                info.tightening_id = self.tightening_sequence;
                info
            },
        }
    }

    /// Batch size for reporting: zero in single mode.
    pub fn batch_size(&self) -> (r: u32)
        ensures
            r == self.spec_batch_size(),
    {
        match &self.mode {
            TighteningMode::Single => 0,
            TighteningMode::Batch(batch) => batch.target_size(),
        }
    }

    /// Counter value: zero in single mode.
    pub fn counter(&self) -> (r: u32)
        ensures
            r == self.spec_counter(),
    {
        match &self.mode {
            TighteningMode::Single => 0,
            TighteningMode::Batch(batch) => batch.counter(),
        }
    }

    /// Whether the device should wait for a new batch configuration:
    /// never in single mode, and exactly on batch completion in batch mode.
    pub fn should_wait_for_config(&self) -> (r: bool)
        ensures
            r == self.spec_is_complete(),
            !self.spec_is_batch() ==> r == false,
    {
        match &self.mode {
            TighteningMode::Single => false,
            TighteningMode::Batch(batch) => batch.is_complete(),
        }
    }

    /// Remaining work for auto-tightening: `None` in single mode (unbounded),
    /// `Some(target - counter)` in batch mode (saturating at zero).
    pub fn remaining_work(&self) -> (r: Option<u32>)
        ensures
            !self.spec_is_batch() ==> r is None,
            self.spec_is_batch() ==> r == Some(
                if self.spec_counter() <= self.spec_batch_size() {
                    (self.spec_batch_size() - self.spec_counter()) as u32
                } else {
                    0u32
                },
            ),
    {
        match &self.mode {
            TighteningMode::Single => None,
            TighteningMode::Batch(batch) => {
                let target = batch.target_size();
                let counter = batch.counter();
                if counter <= target {
                    Some(target - counter)
                } else {
                    Some(0)
                }
            },
        }
    }

    /// Check if the batch is complete; never in single mode.
    pub fn is_complete(&self) -> (r: bool)
        ensures
            r == self.spec_is_complete(),
    {
        match &self.mode {
            TighteningMode::Single => false,
            TighteningMode::Batch(batch) => batch.is_complete(),
        }
    }

    /// Global tightening sequence number.
    pub fn tightening_sequence(&self) -> (r: u32)
        ensures
            r == self.spec_sequence(),
    {
        self.tightening_sequence
    }

    /// Increment the batch counter without a tightening result, to skip a
    /// bolt position.  Returns the new counter, or zero in single mode.
    pub fn increment_batch(&mut self) -> (r: u32)
        ensures
            final(self).spec_sequence() == old(self).spec_sequence(),
            final(self).spec_is_batch() == old(self).spec_is_batch(),
            !old(self).spec_is_batch() ==> *final(self) == *old(self) && r == 0,
            old(self).spec_batch() matches Some(pre) ==> {
                let post = final(self).spec_batch()->Some_0;
                &&& final(self).spec_batch() is Some
                &&& post.spec_counter() == if pre.spec_counter() < pre.spec_target_size() {
                    (pre.spec_counter() + 1) as u32
                } else {
                    pre.spec_counter()
                }
                &&& post.spec_completed() == (pre.spec_completed()
                    || post.spec_counter() >= pre.spec_target_size())
                &&& post.spec_target_size() == pre.spec_target_size()
                &&& post.spec_has_nok() == pre.spec_has_nok()
                &&& post.spec_sequence() == pre.spec_sequence()
                &&& r == post.spec_counter()
            },
    {
        match &mut self.mode {
            TighteningMode::Single => 0,
            TighteningMode::Batch(batch_manager) => batch_manager.increment(),
        }
    }

    /// Reset the batch counter without changing the batch size.  Returns
    /// whether the tracker was in batch mode.
    pub fn reset_batch(&mut self) -> (r: bool)
        ensures
            final(self).spec_sequence() == old(self).spec_sequence(),
            final(self).spec_is_batch() == old(self).spec_is_batch(),
            r == old(self).spec_is_batch(),
            !old(self).spec_is_batch() ==> *final(self) == *old(self),
            old(self).spec_batch() matches Some(pre) ==> {
                let post = final(self).spec_batch()->Some_0;
                &&& final(self).spec_batch() is Some
                &&& post.spec_counter() == 0
                &&& !post.spec_completed()
                &&& !post.spec_has_nok()
                &&& post.spec_target_size() == pre.spec_target_size()
                &&& post.spec_sequence() == pre.spec_sequence()
            },
    {
        match &mut self.mode {
            TighteningMode::Single => false,
            TighteningMode::Batch(batch_manager) => {
                batch_manager.reset();
                true
            },
        }
    }
}

/// In single mode the tracker reports no batch state at all: the counter and
/// the batch size read zero, the tracker never reports completion, and it
/// never asks the scheduler to wait for a new batch configuration.
pub proof fn lemma_single_mode_reports_nothing(t: TighteningTracker)
    requires
        !t.spec_is_batch(),
    ensures
        t.spec_counter() == 0,
        t.spec_batch_size() == 0,
        !t.spec_is_complete(),
{
}

impl Default for TighteningTracker {
    /// A tracker in single mode with sequence zero.
    fn default() -> (r: Self)
        ensures
            !r.spec_is_batch(),
            r.spec_sequence() == 0,
    {
        Self::new()
    }
}

} // verus!
