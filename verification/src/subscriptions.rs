//! Per-connection subscription state over the closed set of event kinds.
//!
//! Subscribing and unsubscribing are idempotent field updates; nothing is
//! counted beyond membership.

use vstd::prelude::*;

verus! {

/// Manages client subscription state for the various event kinds.
#[derive(Debug, Clone, PartialEq, Eq, Structural)]
pub struct Subscriptions {
    /// Subscribed to tightening result events.
    pub tightening_result: bool,
    /// Subscribed to parameter set selection events.
    pub pset_selection: bool,
    /// Subscribed to vehicle id events.
    pub vehicle_id: bool,
    /// Subscribed to multi-spindle status events.
    pub multi_spindle_status: bool,
    /// Subscribed to multi-spindle result events.
    pub multi_spindle_result: bool,
    /// Subscribed to alarm events (reserved, never set by the dispatch).
    pub alarm: bool,
    /// Subscribed to job info events (reserved, never set by the dispatch).
    pub job_info: bool,
}

impl Subscriptions {
    /// Number of active subscriptions.
    pub open spec fn spec_active_count(&self) -> int {
        (if self.tightening_result { 1int } else { 0int })
            + (if self.pset_selection { 1int } else { 0int })
            + (if self.vehicle_id { 1int } else { 0int })
            + (if self.multi_spindle_status { 1int } else { 0int })
            + (if self.multi_spindle_result { 1int } else { 0int })
            + (if self.alarm { 1int } else { 0int })
            + (if self.job_info { 1int } else { 0int })
    }

    /// Create a subscription set with every kind disabled.
    pub fn new() -> (r: Self)
        ensures
            r == Subscriptions::spec_empty(),
    {
        Self {
            tightening_result: false,
            pset_selection: false,
            vehicle_id: false,
            multi_spindle_status: false,
            multi_spindle_result: false,
            alarm: false,
            job_info: false,
        }
    }

    /// The empty subscription set.
    pub open spec fn spec_empty() -> Self {
        Subscriptions {
            tightening_result: false,
            pset_selection: false,
            vehicle_id: false,
            multi_spindle_status: false,
            multi_spindle_result: false,
            alarm: false,
            job_info: false,
        }
    }

    /// Subscribe to tightening result events.
    pub fn subscribe_tightening_result(&mut self)
        ensures
            *final(self) == (Subscriptions { tightening_result: true, ..*old(self) }),
    {
        self.tightening_result = true;
    }

    /// Unsubscribe from tightening result events.
    pub fn unsubscribe_tightening_result(&mut self)
        ensures
            *final(self) == (Subscriptions { tightening_result: false, ..*old(self) }),
    {
        self.tightening_result = false;
    }

    /// Subscribe to parameter set selection events.
    pub fn subscribe_pset_selection(&mut self)
        ensures
            *final(self) == (Subscriptions { pset_selection: true, ..*old(self) }),
    {
        self.pset_selection = true;
    }

    /// Unsubscribe from parameter set selection events.
    pub fn unsubscribe_pset_selection(&mut self)
        ensures
            *final(self) == (Subscriptions { pset_selection: false, ..*old(self) }),
    {
        self.pset_selection = false;
    }

    /// Check if subscribed to tightening results.
    pub fn is_subscribed_to_tightening_result(&self) -> (r: bool)
        ensures
            r == self.tightening_result,
    {
        self.tightening_result
    }

    /// Check if subscribed to pset selection.
    pub fn is_subscribed_to_pset_selection(&self) -> (r: bool)
        ensures
            r == self.pset_selection,
    {
        self.pset_selection
    }

    /// Subscribe to vehicle id events.
    pub fn subscribe_vehicle_id(&mut self)
        ensures
            *final(self) == (Subscriptions { vehicle_id: true, ..*old(self) }),
    {
        self.vehicle_id = true;
    }

    /// Unsubscribe from vehicle id events.
    pub fn unsubscribe_vehicle_id(&mut self)
        ensures
            *final(self) == (Subscriptions { vehicle_id: false, ..*old(self) }),
    {
        self.vehicle_id = false;
    }

    /// Check if subscribed to vehicle id events.
    pub fn is_subscribed_to_vehicle_id(&self) -> (r: bool)
        ensures
            r == self.vehicle_id,
    {
        self.vehicle_id
    }

    /// Subscribe to multi-spindle status events.
    pub fn subscribe_multi_spindle_status(&mut self)
        ensures
            *final(self) == (Subscriptions { multi_spindle_status: true, ..*old(self) }),
    {
        self.multi_spindle_status = true;
    }

    /// Unsubscribe from multi-spindle status events.
    pub fn unsubscribe_multi_spindle_status(&mut self)
        ensures
            *final(self) == (Subscriptions { multi_spindle_status: false, ..*old(self) }),
    {
        self.multi_spindle_status = false;
    }

    /// Check if subscribed to multi-spindle status events.
    pub fn is_subscribed_to_multi_spindle_status(&self) -> (r: bool)
        ensures
            r == self.multi_spindle_status,
    {
        self.multi_spindle_status
    }

    /// Subscribe to multi-spindle result events.
    pub fn subscribe_multi_spindle_result(&mut self)
        ensures
            *final(self) == (Subscriptions { multi_spindle_result: true, ..*old(self) }),
    {
        self.multi_spindle_result = true;
    }

    /// Unsubscribe from multi-spindle result events.
    pub fn unsubscribe_multi_spindle_result(&mut self)
        ensures
            *final(self) == (Subscriptions { multi_spindle_result: false, ..*old(self) }),
    {
        self.multi_spindle_result = false;
    }

    /// Check if subscribed to multi-spindle result events.
    pub fn is_subscribed_to_multi_spindle_result(&self) -> (r: bool)
        ensures
            r == self.multi_spindle_result,
    {
        self.multi_spindle_result
    }

    /// Count of active subscriptions.
    pub fn active_count(&self) -> (r: usize)
        ensures
            r == self.spec_active_count(),
    {
        let mut count: usize = 0;
        if self.tightening_result {
            count += 1;
        }
        if self.pset_selection {
            count += 1;
        }
        if self.vehicle_id {
            count += 1;
        }
        if self.multi_spindle_status {
            count += 1;
        }
        if self.multi_spindle_result {
            count += 1;
        }
        if self.alarm {
            count += 1;
        }
        if self.job_info {
            count += 1;
        }
        count
    }

    /// Check if any subscription is active.
    pub fn has_any_subscription(&self) -> (r: bool)
        ensures
            r == (self.spec_active_count() > 0),
    {
        self.active_count() > 0
    }
}

/// Subscribing twice to the same kind is the same as subscribing once, and
/// unsubscribing twice is the same as unsubscribing once: both operations
/// are idempotent field updates.  Stated here for the tightening result
/// kind; every kind is updated by the same one-field rule.
pub proof fn lemma_subscribe_idempotent(s: Subscriptions)
    ensures
        (Subscriptions { tightening_result: true, ..Subscriptions { tightening_result: true, ..s } })
            == (Subscriptions { tightening_result: true, ..s }),
        (Subscriptions { tightening_result: false, ..Subscriptions { tightening_result: false, ..s } })
            == (Subscriptions { tightening_result: false, ..s }),
{
}

/// Subscribing and then unsubscribing a kind returns the set to its prior
/// value, provided the kind was not already subscribed.  (From an already
/// subscribed set the pair of calls ends unsubscribed, which differs from
/// the prior value.)
pub proof fn lemma_subscribe_then_unsubscribe(s: Subscriptions)
    requires
        !s.tightening_result,
    ensures
        (Subscriptions { tightening_result: false, ..Subscriptions { tightening_result: true, ..s } })
            == s,
{
}

} // verus!
