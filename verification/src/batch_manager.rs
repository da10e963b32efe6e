//! Batch bookkeeping for tightening operations.
//!
//! A batch counts OK tightenings towards a target size.  NOK tightenings do
//! not advance the counter (the integrator may retry the same position), but
//! they mark the batch so that completion is reported as "completed NOK".

use vstd::prelude::*;

verus! {

/// Status of a batch reported together with each recorded tightening.
#[derive(Debug, Clone, Copy, PartialEq, Eq, Structural)]
pub enum BatchStatus {
    /// No batch is in use (single mode).
    NotUsed,
    /// Batch is not yet finished.
    NotFinished,
    /// Batch completed with all tightenings OK.
    CompletedOk,
    /// Batch completed but has one or more NOK tightenings.
    CompletedNok,
}

/// Information about a tightening operation within a batch.
#[derive(Debug, Clone, PartialEq, Eq, Structural)]
pub struct TighteningInfo {
    /// Current position in the batch (1-based).
    pub counter: u32,
    /// Unique tightening identifier.
    pub tightening_id: u32,
    /// Current batch status.
    pub batch_status: BatchStatus,
}

/// Manages batch state and lifecycle.
#[derive(Debug, Clone, PartialEq, Eq, Structural)]
pub struct BatchManager {
    counter: u32,
    target_size: u32,
    completed: bool,
    has_nok: bool,
    tightening_sequence: u32,
}

impl BatchManager {
    /// Counter of OK tightenings recorded in the current batch.
    pub closed spec fn spec_counter(&self) -> u32 {
        self.counter
    }

    /// Target number of tightenings for this batch.
    pub closed spec fn spec_target_size(&self) -> u32 {
        self.target_size
    }

    /// Whether the batch has been completed.
    pub closed spec fn spec_completed(&self) -> bool {
        self.completed
    }

    /// Whether any tightening in this batch has been NOK.
    pub closed spec fn spec_has_nok(&self) -> bool {
        self.has_nok
    }

    /// Sequence counter handed out as tightening identifier.
    pub closed spec fn spec_sequence(&self) -> u32 {
        self.tightening_sequence
    }

    /// The batch invariant: the counter never passes the target, and
    /// completion means exactly that the counter has reached the target.
    pub open spec fn inv(&self) -> bool {
        &&& self.spec_counter() <= self.spec_target_size()
        &&& self.spec_completed() <==> self.spec_counter() >= self.spec_target_size()
    }

    /// Create a new batch manager with the specified target size.
    pub fn new(target_size: u32) -> (r: Self)
        ensures
            r.spec_counter() == 0,
            r.spec_target_size() == target_size,
            !r.spec_completed(),
            !r.spec_has_nok(),
            r.spec_sequence() == 0,
            target_size >= 1 ==> r.inv(),
    {
        Self { counter: 0, target_size, completed: false, has_nok: false, tightening_sequence: 0 }
    }

    /// Add a tightening result to the batch and report position and status.
    ///
    /// The counter only advances on OK tightenings and never past the
    /// target; a NOK tightening leaves the position unchanged so the
    /// integrator can retry it, but it taints the batch.  Every call hands
    /// out a fresh tightening identifier.
    pub fn add_tightening(&mut self, result_ok: bool) -> (info: TighteningInfo)
        requires
            old(self).spec_counter() < u32::MAX,
            old(self).spec_sequence() < u32::MAX,
        ensures
            final(self).spec_sequence() == old(self).spec_sequence() + 1,
            final(self).spec_counter() == if result_ok && !old(self).spec_completed() {
                old(self).spec_counter() + 1
            } else {
                old(self).spec_counter() as int
            },
            final(self).spec_target_size() == old(self).spec_target_size(),
            final(self).spec_has_nok() == (old(self).spec_has_nok() || !result_ok),
            final(self).spec_completed() == (old(self).spec_completed()
                || final(self).spec_counter() >= old(self).spec_target_size()),
            info.counter == final(self).spec_counter(),
            info.tightening_id == final(self).spec_sequence(),
            info.batch_status == (if final(self).spec_counter() >= final(self).spec_target_size() {
                if final(self).spec_has_nok() {
                    BatchStatus::CompletedNok
                } else {
                    BatchStatus::CompletedOk
                }
            } else {
                BatchStatus::NotFinished
            }),
            old(self).inv() ==> final(self).inv(),
    {
        self.tightening_sequence = self.tightening_sequence + 1;

        if result_ok {
            if !self.completed {
                self.counter = self.counter + 1;
            }
        } else {
            self.has_nok = true;
        }

        let batch_status = if self.counter >= self.target_size {
            self.completed = true;
            if self.has_nok {
                BatchStatus::CompletedNok
            } else {
                BatchStatus::CompletedOk
            }
        } else {
            BatchStatus::NotFinished
        };

        TighteningInfo {
            counter: self.counter,
            tightening_id: self.tightening_sequence,
            batch_status,
        }
    }

    /// Reset the batch for a new cycle.  The tightening sequence and the
    /// target size are kept; counter, completion and NOK marks are cleared.
    pub fn reset(&mut self)
        ensures
            final(self).spec_counter() == 0,
            !final(self).spec_completed(),
            !final(self).spec_has_nok(),
            final(self).spec_target_size() == old(self).spec_target_size(),
            final(self).spec_sequence() == old(self).spec_sequence(),
            old(self).spec_target_size() >= 1 ==> final(self).inv(),
    {
        self.counter = 0;
        self.completed = false;
        self.has_nok = false;
    }

    /// The state that setting the target size leaves behind: a reset batch
    /// with the new target; only the tightening sequence survives.
    pub closed spec fn spec_set_target_size(self, new_size: u32) -> BatchManager {
        BatchManager {
            counter: 0,
            target_size: new_size,
            completed: false,
            has_nok: false,
            tightening_sequence: self.tightening_sequence,
        }
    }

    /// Set a new target batch size and reset the batch: counter, completion
    /// and NOK marks are cleared whatever the previous target was.
    pub fn set_target_size(&mut self, new_size: u32)
        ensures
            *final(self) == old(self).spec_set_target_size(new_size),
            final(self).spec_target_size() == new_size,
            final(self).spec_counter() == 0,
            !final(self).spec_completed(),
            !final(self).spec_has_nok(),
            final(self).spec_sequence() == old(self).spec_sequence(),
            new_size >= 1 ==> final(self).inv(),
    {
        self.target_size = new_size;
        self.reset();
    }

    /// Increment the batch counter without a tightening result, to skip a
    /// position.  The counter never passes the target; completion is set
    /// when the target is reached.  Returns the new counter value.
    pub fn increment(&mut self) -> (r: u32)
        ensures
            final(self).spec_counter() == if old(self).spec_counter() < old(self).spec_target_size() {
                (old(self).spec_counter() + 1) as u32
            } else {
                old(self).spec_counter()
            },
            final(self).spec_completed() == (old(self).spec_completed()
                || final(self).spec_counter() >= old(self).spec_target_size()),
            final(self).spec_target_size() == old(self).spec_target_size(),
            final(self).spec_has_nok() == old(self).spec_has_nok(),
            final(self).spec_sequence() == old(self).spec_sequence(),
            r == final(self).spec_counter(),
            old(self).inv() ==> final(self).inv(),
    {
        if self.counter < self.target_size {
            self.counter = self.counter + 1;
        }
        if self.counter >= self.target_size {
            self.completed = true;
        }
        self.counter
    }

    /// Batch status encoded for the wire: 0 batch NOK, 1 batch OK,
    /// 2 not finished.
    pub fn get_batch_status_value(&self) -> (r: i32)
        ensures
            r == self.spec_status_value(),
    {
        if !self.completed {
            2
        } else if self.has_nok {
            0
        } else {
            1
        }
    }

    /// The encoded wire value of the batch status.
    pub open spec fn spec_status_value(&self) -> i32 {
        if !self.spec_completed() {
            2
        } else if self.spec_has_nok() {
            0
        } else {
            1
        }
    }

    /// Check if the batch is complete.
    pub fn is_complete(&self) -> (r: bool)
        ensures
            r == self.spec_completed(),
    {
        self.completed
    }

    /// Get the current counter value.
    pub fn counter(&self) -> (r: u32)
        ensures
            r == self.spec_counter(),
    {
        self.counter
    }

    /// Get the target batch size.
    pub fn target_size(&self) -> (r: u32)
        ensures
            r == self.spec_target_size(),
    {
        self.target_size
    }
}

/// Recording a tightening preserves the batch invariant: from any state
/// that satisfies it, the counter stays within the target and completion
/// keeps meaning that the counter reached the target.  A target size of
/// zero is excluded: a fresh manager with target zero starts with its
/// counter already at the target while not reporting completion.
pub proof fn lemma_add_preserves_invariant(pre: BatchManager, post: BatchManager, ok: bool)
    requires
        pre.inv(),
        pre.spec_counter() < u32::MAX,
        post.spec_counter() == if ok && !pre.spec_completed() {
            pre.spec_counter() + 1
        } else {
            pre.spec_counter() as int
        },
        post.spec_target_size() == pre.spec_target_size(),
        post.spec_completed() == (pre.spec_completed() || post.spec_counter()
            >= pre.spec_target_size()),
    ensures
        post.inv(),
{
}

/// Setting the target size twice to the same value leaves the same state
/// as setting it once: the second call resets a batch that is already
/// freshly reset.
pub proof fn lemma_set_target_size_idempotent(b: BatchManager, n: u32)
    ensures
        b.spec_set_target_size(n).spec_set_target_size(n) == b.spec_set_target_size(n),
{
}

} // verus!

