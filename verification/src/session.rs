//! Per-connection session lifecycle: disconnected, connected, ready.
//!
//! Transitions consume the old state and yield the new one, so only legal
//! transitions exist.  Time enters as plain millisecond readings supplied
//! by the caller, which makes keep-alive arithmetic exact.

use vstd::prelude::*;

use crate::subscriptions::Subscriptions;

verus! {

/// Initial state: no connection established.
pub struct Disconnected;

/// Connected state: transport established, awaiting the handshake.
pub struct Connected {
    /// Remote client address, printable form.
    pub addr: String,
    /// When the connection was established, in milliseconds.
    pub connected_at_ms: u64,
}

/// Ready state: handshake done, normal operation.
pub struct Ready {
    /// Remote client address, printable form.
    pub addr: String,
    /// When the connection was established, in milliseconds.
    pub connected_at_ms: u64,
    /// When the last message arrived, in milliseconds.
    pub last_activity_ms: u64,
    /// Active subscriptions for this connection.
    pub subscriptions: Subscriptions,
}

/// A connection session in a specific lifecycle state.
pub struct ConnectionSession<S> {
    state: S,
}

/// The subscription set that a given MID leaves behind: subscription MIDs
/// set their kind, unsubscription MIDs clear it, every other MID changes
/// nothing.
pub open spec fn spec_apply_subscription_mid(s: Subscriptions, mid: u16) -> Subscriptions {
    if mid == 60 {
        Subscriptions { tightening_result: true, ..s }
    } else if mid == 63 {
        Subscriptions { tightening_result: false, ..s }
    } else if mid == 14 {
        Subscriptions { pset_selection: true, ..s }
    } else if mid == 17 {
        Subscriptions { pset_selection: false, ..s }
    } else if mid == 51 {
        Subscriptions { vehicle_id: true, ..s }
    } else if mid == 54 {
        Subscriptions { vehicle_id: false, ..s }
    } else if mid == 90 {
        Subscriptions { multi_spindle_status: true, ..s }
    } else if mid == 92 {
        Subscriptions { multi_spindle_status: false, ..s }
    } else if mid == 100 {
        Subscriptions { multi_spindle_result: true, ..s }
    } else if mid == 103 {
        Subscriptions { multi_spindle_result: false, ..s }
    } else {
        s
    }
}

impl<S> ConnectionSession<S> {
    /// The state payload of this session.
    pub closed spec fn spec_state(&self) -> &S {
        &self.state
    }
}

impl ConnectionSession<Disconnected> {
    /// Create a new disconnected session.
    pub fn new() -> Self {
        Self { state: Disconnected }
    }

    /// Transition to the connected state when the transport is established.
    pub fn connect(self, addr: String, now_ms: u64) -> (r: ConnectionSession<Connected>)
        ensures
            r.spec_state().addr == addr,
            r.spec_state().connected_at_ms == now_ms,
    {
        ConnectionSession { state: Connected { addr, connected_at_ms: now_ms } }
    }
}

impl ConnectionSession<Connected> {
    /// The client's address.
    pub fn addr(&self) -> (r: &String)
        ensures
            r == self.spec_state().addr,
    {
        &self.state.addr
    }

    /// When the connection was established.
    pub fn connected_at(&self) -> (r: u64)
        ensures
            r == self.spec_state().connected_at_ms,
    {
        self.state.connected_at_ms
    }

    /// Transition to the ready state after the handshake, with no
    /// subscriptions and fresh activity.
    pub fn authenticate(self, now_ms: u64) -> (r: ConnectionSession<Ready>)
        ensures
            r.spec_state().addr == self.spec_state().addr,
            r.spec_state().connected_at_ms == self.spec_state().connected_at_ms,
            r.spec_state().last_activity_ms == now_ms,
            r.spec_state().subscriptions == Subscriptions::spec_empty(),
    {
        ConnectionSession {
            state: Ready {
                addr: self.state.addr,
                connected_at_ms: self.state.connected_at_ms,
                last_activity_ms: now_ms,
                subscriptions: Subscriptions::new(),
            },
        }
    }

    /// Disconnect and return to the initial state.
    pub fn disconnect(self) -> ConnectionSession<Disconnected> {
        ConnectionSession::new()
    }
}

impl ConnectionSession<Ready> {
    /// The client's address.
    pub fn addr(&self) -> (r: &String)
        ensures
            r == self.spec_state().addr,
    {
        &self.state.addr
    }

    /// When the connection was established.
    pub fn connected_at(&self) -> (r: u64)
        ensures
            r == self.spec_state().connected_at_ms,
    {
        self.state.connected_at_ms
    }

    /// When the last message arrived.
    pub fn last_activity(&self) -> (r: u64)
        ensures
            r == self.spec_state().last_activity_ms,
    {
        self.state.last_activity_ms
    }

    /// Record activity now; call on every received message.
    pub fn update_keep_alive(&mut self, now_ms: u64)
        ensures
            final(self).spec_state().last_activity_ms == now_ms,
            final(self).spec_state().addr == old(self).spec_state().addr,
            final(self).spec_state().connected_at_ms == old(self).spec_state().connected_at_ms,
            final(self).spec_state().subscriptions == old(self).spec_state().subscriptions,
    {
        self.state.last_activity_ms = now_ms;
    }

    /// Whether the connection has been idle for at least `timeout_secs`
    /// whole seconds at time `now_ms`.  A clock reading earlier than the
    /// last activity counts as no idle time.
    pub fn is_timed_out(&self, now_ms: u64, timeout_secs: u64) -> (r: bool)
        ensures
            r == ({
                let elapsed_ms: u64 = if now_ms >= self.spec_state().last_activity_ms {
                    (now_ms - self.spec_state().last_activity_ms) as u64
                } else {
                    0u64
                };
                elapsed_ms / 1000 >= timeout_secs
            }),
    {
        let elapsed_ms: u64 = if now_ms >= self.state.last_activity_ms {
            now_ms - self.state.last_activity_ms
        } else {
            0
        };
        elapsed_ms / 1000 >= timeout_secs
    }

    /// The session's subscriptions.
    pub fn subscriptions(&self) -> (r: &Subscriptions)
        ensures
            r == self.spec_state().subscriptions,
    {
        &self.state.subscriptions
    }

    /// Mutable access to the session's subscriptions.
    pub fn subscriptions_mut(&mut self) -> (r: &mut Subscriptions)
        ensures
            *r == old(self).spec_state().subscriptions,
            final(self).spec_state().subscriptions == *final(r),
            final(self).spec_state().addr == old(self).spec_state().addr,
            final(self).spec_state().connected_at_ms == old(self).spec_state().connected_at_ms,
            final(self).spec_state().last_activity_ms == old(self).spec_state().last_activity_ms,
    {
        &mut self.state.subscriptions
    }

    /// Update the subscription set for an inbound MID: subscription
    /// requests set their kind, unsubscription requests clear it, all
    /// other MIDs leave the set unchanged.
    pub fn apply_subscription_mid(&mut self, mid: u16)
        ensures
            final(self).spec_state().subscriptions == spec_apply_subscription_mid(
                old(self).spec_state().subscriptions,
                mid,
            ),
            final(self).spec_state().addr == old(self).spec_state().addr,
            final(self).spec_state().connected_at_ms == old(self).spec_state().connected_at_ms,
            final(self).spec_state().last_activity_ms == old(self).spec_state().last_activity_ms,
    {
        if mid == 60 {
            self.subscribe_tightening_result();
        } else if mid == 63 {
            self.unsubscribe_tightening_result();
        } else if mid == 14 {
            self.subscribe_pset_selection();
        } else if mid == 17 {
            self.unsubscribe_pset_selection();
        } else if mid == 51 {
            self.subscribe_vehicle_id();
        } else if mid == 54 {
            self.unsubscribe_vehicle_id();
        } else if mid == 90 {
            self.subscribe_multi_spindle_status();
        } else if mid == 92 {
            self.unsubscribe_multi_spindle_status();
        } else if mid == 100 {
            self.subscribe_multi_spindle_result();
        } else if mid == 103 {
            self.unsubscribe_multi_spindle_result();
        }
    }

    /// Subscribe to tightening result events.
    pub fn subscribe_tightening_result(&mut self)
        ensures
            final(self).spec_state().subscriptions == (Subscriptions {
                tightening_result: true,
                ..old(self).spec_state().subscriptions
            }),
            final(self).spec_state().addr == old(self).spec_state().addr,
            final(self).spec_state().connected_at_ms == old(self).spec_state().connected_at_ms,
            final(self).spec_state().last_activity_ms == old(self).spec_state().last_activity_ms,
    {
        self.state.subscriptions.subscribe_tightening_result();
    }

    /// Unsubscribe from tightening result events.
    pub fn unsubscribe_tightening_result(&mut self)
        ensures
            final(self).spec_state().subscriptions == (Subscriptions {
                tightening_result: false,
                ..old(self).spec_state().subscriptions
            }),
            final(self).spec_state().addr == old(self).spec_state().addr,
            final(self).spec_state().connected_at_ms == old(self).spec_state().connected_at_ms,
            final(self).spec_state().last_activity_ms == old(self).spec_state().last_activity_ms,
    {
        self.state.subscriptions.unsubscribe_tightening_result();
    }

    /// Subscribe to parameter set selection events.
    pub fn subscribe_pset_selection(&mut self)
        ensures
            final(self).spec_state().subscriptions == (Subscriptions {
                pset_selection: true,
                ..old(self).spec_state().subscriptions
            }),
            final(self).spec_state().addr == old(self).spec_state().addr,
            final(self).spec_state().connected_at_ms == old(self).spec_state().connected_at_ms,
            final(self).spec_state().last_activity_ms == old(self).spec_state().last_activity_ms,
    {
        self.state.subscriptions.subscribe_pset_selection();
    }

    /// Unsubscribe from parameter set selection events.
    pub fn unsubscribe_pset_selection(&mut self)
        ensures
            final(self).spec_state().subscriptions == (Subscriptions {
                pset_selection: false,
                ..old(self).spec_state().subscriptions
            }),
            final(self).spec_state().addr == old(self).spec_state().addr,
            final(self).spec_state().connected_at_ms == old(self).spec_state().connected_at_ms,
            final(self).spec_state().last_activity_ms == old(self).spec_state().last_activity_ms,
    {
        self.state.subscriptions.unsubscribe_pset_selection();
    }

    /// Subscribe to vehicle id events.
    pub fn subscribe_vehicle_id(&mut self)
        ensures
            final(self).spec_state().subscriptions == (Subscriptions {
                vehicle_id: true,
                ..old(self).spec_state().subscriptions
            }),
            final(self).spec_state().addr == old(self).spec_state().addr,
            final(self).spec_state().connected_at_ms == old(self).spec_state().connected_at_ms,
            final(self).spec_state().last_activity_ms == old(self).spec_state().last_activity_ms,
    {
        self.state.subscriptions.subscribe_vehicle_id();
    }

    /// Unsubscribe from vehicle id events.
    pub fn unsubscribe_vehicle_id(&mut self)
        ensures
            final(self).spec_state().subscriptions == (Subscriptions {
                vehicle_id: false,
                ..old(self).spec_state().subscriptions
            }),
            final(self).spec_state().addr == old(self).spec_state().addr,
            final(self).spec_state().connected_at_ms == old(self).spec_state().connected_at_ms,
            final(self).spec_state().last_activity_ms == old(self).spec_state().last_activity_ms,
    {
        self.state.subscriptions.unsubscribe_vehicle_id();
    }

    /// Subscribe to multi-spindle status events.
    pub fn subscribe_multi_spindle_status(&mut self)
        ensures
            final(self).spec_state().subscriptions == (Subscriptions {
                multi_spindle_status: true,
                ..old(self).spec_state().subscriptions
            }),
            final(self).spec_state().addr == old(self).spec_state().addr,
            final(self).spec_state().connected_at_ms == old(self).spec_state().connected_at_ms,
            final(self).spec_state().last_activity_ms == old(self).spec_state().last_activity_ms,
    {
        self.state.subscriptions.subscribe_multi_spindle_status();
    }

    /// Unsubscribe from multi-spindle status events.
    pub fn unsubscribe_multi_spindle_status(&mut self)
        ensures
            final(self).spec_state().subscriptions == (Subscriptions {
                multi_spindle_status: false,
                ..old(self).spec_state().subscriptions
            }),
            final(self).spec_state().addr == old(self).spec_state().addr,
            final(self).spec_state().connected_at_ms == old(self).spec_state().connected_at_ms,
            final(self).spec_state().last_activity_ms == old(self).spec_state().last_activity_ms,
    {
        self.state.subscriptions.unsubscribe_multi_spindle_status();
    }

    /// Subscribe to multi-spindle result events.
    pub fn subscribe_multi_spindle_result(&mut self)
        ensures
            final(self).spec_state().subscriptions == (Subscriptions {
                multi_spindle_result: true,
                ..old(self).spec_state().subscriptions
            }),
            final(self).spec_state().addr == old(self).spec_state().addr,
            final(self).spec_state().connected_at_ms == old(self).spec_state().connected_at_ms,
            final(self).spec_state().last_activity_ms == old(self).spec_state().last_activity_ms,
    {
        self.state.subscriptions.subscribe_multi_spindle_result();
    }

    /// Unsubscribe from multi-spindle result events.
    pub fn unsubscribe_multi_spindle_result(&mut self)
        ensures
            final(self).spec_state().subscriptions == (Subscriptions {
                multi_spindle_result: false,
                ..old(self).spec_state().subscriptions
            }),
            final(self).spec_state().addr == old(self).spec_state().addr,
            final(self).spec_state().connected_at_ms == old(self).spec_state().connected_at_ms,
            final(self).spec_state().last_activity_ms == old(self).spec_state().last_activity_ms,
    {
        self.state.subscriptions.unsubscribe_multi_spindle_result();
    }

    /// Disconnect and return to the initial state.
    pub fn disconnect(self) -> ConnectionSession<Disconnected> {
        ConnectionSession::new()
    }
}

} // verus!
