//! MID handlers and their dispatch table.
//!
//! Each handler turns an inbound message into a state mutation, a list of
//! emitted events and a response; its full behavior is one case of
//! `spec_handler_post`.  The registry maps MIDs to handlers and reports an
//! unknown MID as an error.

pub mod data;

use vstd::prelude::*;

use crate::events::SimulatorEvent;
use crate::protocol::digits::{
    spec_char_digits, spec_parse_or, spec_trim, spec_zero_pad, parse_trimmed_or, trim_bytes,
    uint_to_string,
};
use crate::protocol::response_data::ResponseData;
use crate::protocol::{Message, Response};
use crate::state::DeviceState;
use data::{CommandAccepted, CommunicationStartAck, ErrorResponse};
use vstd::string::StringExecFns;

verus! {

/// Errors of the dispatch layer.
#[derive(Debug, Clone, PartialEq, Eq)]
pub enum HandlerError {
    /// No handler is registered for this MID.
    UnknownMid(u16),
    /// A handler failed while processing.
    Processing(String),
}

/// Whether a response is a command-accepted acknowledge for the given MID,
/// carrying the request's revision.
pub open spec fn spec_is_ack(r: Response, acked_mid: nat, revision: u8) -> bool {
    &&& r.mid == 5
    &&& r.revision == revision
    &&& r.data@ == spec_zero_pad(acked_mid, 4)
}

/// Whether a response is the bare acknowledge used for client acks: command
/// accepted, revision one, no body.
pub open spec fn spec_is_empty_ack(r: Response) -> bool {
    &&& r.mid == 5
    &&& r.revision == 1
    &&& r.data@.len() == 0
}

/// Whether a byte sequence is plain ASCII.
pub open spec fn spec_is_ascii_bytes(b: Seq<u8>) -> bool {
    forall|i: int| 0 <= i < b.len() ==> #[trigger] b[i] < 128
}

/// The characters of an ASCII byte sequence.
pub open spec fn spec_ascii_chars(b: Seq<u8>) -> Seq<char> {
    Seq::new(b.len(), |i: int| b[i] as char)
}

/// Relies on the standard library's `String::from_utf8_lossy`: on ASCII
/// input (always valid UTF-8) the characters are exactly the bytes.  On
/// other input the standard library substitutes replacement characters and
/// nothing is claimed here.
#[verifier::external_body]
fn string_from_utf8_lossy(b: &[u8]) -> (r: String)
    ensures
        spec_is_ascii_bytes(b@) ==> r@ == spec_ascii_chars(b@),
{
    String::from_utf8_lossy(b).into_owned()
}

/// The vehicle id a download message carries: the whitespace-trimmed body,
/// decoded as text.
fn vin_of_message(message: &Message) -> (r: String)
    ensures
        message.data@.len() == 0 ==> r@ == "NO_VIN"@,
        message.data@.len() > 0 && spec_is_ascii_bytes(spec_trim(message.data@)) ==> r@
            == spec_ascii_chars(spec_trim(message.data@)),
{
    if message.data.len() == 0 {
        String::from_str("NO_VIN")
    } else {
        let trimmed = trim_bytes(message.data.as_slice());
        string_from_utf8_lossy(trimmed)
    }
}

/// MID 0001, communication start: reply with the controller identity.
pub struct CommunicationStartHandler;

/// MID 0003, communication stop: acknowledge.
pub struct CommunicationStopHandler;

/// MID 0014, subscribe to parameter set selection: acknowledge.  The
/// subscription itself is per-connection state kept by the session.
pub struct PsetSubscriptionHandler;

/// MID 0017, unsubscribe from parameter set selection: acknowledge.
pub struct PsetUnsubscribeHandler;

/// MID 0018, select a parameter set.
pub struct PsetSelectHandler;

/// MID 0019, set the batch size.
pub struct BatchSizeHandler;

/// MID 0020, reset the batch counter.
pub struct BatchResetHandler;

/// MID 0042, disable the tool.
pub struct ToolDisableHandler;

/// MID 0043, enable the tool.
pub struct ToolEnableHandler;

/// MID 0050, vehicle id download.
pub struct VehicleIdDownloadHandler;

/// MID 0051, subscribe to vehicle id events: acknowledge.
pub struct VehicleIdSubscriptionHandler;

/// MID 0053, vehicle id acknowledged by the client.
pub struct VehicleIdAckHandler;

/// MID 0054, unsubscribe from vehicle id events: acknowledge.
pub struct VehicleIdUnsubscribeHandler;

/// MID 0060, subscribe to tightening results: acknowledge.
pub struct TighteningResultSubscriptionHandler;

/// MID 0062, tightening result acknowledged by the client.
pub struct TighteningResultAckHandler;

/// MID 0063, unsubscribe from tightening results: acknowledge.
pub struct TighteningResultUnsubscribeHandler;

/// MID 0090, subscribe to multi-spindle status: acknowledge.
pub struct MultiSpindleStatusSubscribeHandler;

/// MID 0092, unsubscribe from multi-spindle status: acknowledge.
pub struct MultiSpindleStatusUnsubscribeHandler;

/// MID 0093, multi-spindle status acknowledged by the client.
pub struct MultiSpindleStatusAckHandler;

/// MID 0100, subscribe to multi-spindle results: acknowledge.
pub struct MultiSpindleResultSubscribeHandler;

/// MID 0102, multi-spindle result acknowledged by the client.
pub struct MultiSpindleResultAckHandler;

/// MID 0103, unsubscribe from multi-spindle results: acknowledge.
pub struct MultiSpindleResultUnsubscribeHandler;

/// MID 0128, batch increment: skip a bolt position.
pub struct BatchIncrementHandler;

/// MID 9999, keep alive: echo.
pub struct KeepAliveHandler;

impl CommunicationStartHandler {
    /// Create the handler.
    pub fn new() -> Self {
        Self
    }
}

impl CommunicationStopHandler {
    /// Create the handler.
    pub fn new() -> Self {
        Self
    }
}

/// One registered handler.
pub enum HandlerKind {
    /// MID 0001.
    CommunicationStart(CommunicationStartHandler),
    /// MID 0003.
    CommunicationStop(CommunicationStopHandler),
    /// MID 0014.
    PsetSubscription(PsetSubscriptionHandler),
    /// MID 0017.
    PsetUnsubscribe(PsetUnsubscribeHandler),
    /// MID 0018.
    PsetSelect(PsetSelectHandler),
    /// MID 0019.
    BatchSize(BatchSizeHandler),
    /// MID 0020.
    BatchReset(BatchResetHandler),
    /// MID 0042.
    ToolDisable(ToolDisableHandler),
    /// MID 0043.
    ToolEnable(ToolEnableHandler),
    /// MID 0050.
    VehicleIdDownload(VehicleIdDownloadHandler),
    /// MID 0051.
    VehicleIdSubscription(VehicleIdSubscriptionHandler),
    /// MID 0053.
    VehicleIdAck(VehicleIdAckHandler),
    /// MID 0054.
    VehicleIdUnsubscribe(VehicleIdUnsubscribeHandler),
    /// MID 0060.
    TighteningResultSubscription(TighteningResultSubscriptionHandler),
    /// MID 0062.
    TighteningResultAck(TighteningResultAckHandler),
    /// MID 0063.
    TighteningResultUnsubscribe(TighteningResultUnsubscribeHandler),
    /// MID 0090.
    MultiSpindleStatusSubscribe(MultiSpindleStatusSubscribeHandler),
    /// MID 0092.
    MultiSpindleStatusUnsubscribe(MultiSpindleStatusUnsubscribeHandler),
    /// MID 0093.
    MultiSpindleStatusAck(MultiSpindleStatusAckHandler),
    /// MID 0100.
    MultiSpindleResultSubscribe(MultiSpindleResultSubscribeHandler),
    /// MID 0102.
    MultiSpindleResultAck(MultiSpindleResultAckHandler),
    /// MID 0103.
    MultiSpindleResultUnsubscribe(MultiSpindleResultUnsubscribeHandler),
    /// MID 0128.
    BatchIncrement(BatchIncrementHandler),
    /// MID 9999.
    KeepAlive(KeepAliveHandler),
}

/// The MID a handler acknowledges with a command-accepted response while
/// leaving state and events untouched, if it is such a handler.
pub open spec fn spec_plain_ack_mid(kind: HandlerKind) -> Option<nat> {
    match kind {
        HandlerKind::CommunicationStop(_) => Some(3nat),
        HandlerKind::PsetSubscription(_) => Some(14nat),
        HandlerKind::PsetUnsubscribe(_) => Some(17nat),
        HandlerKind::VehicleIdSubscription(_) => Some(51nat),
        HandlerKind::VehicleIdUnsubscribe(_) => Some(54nat),
        HandlerKind::TighteningResultSubscription(_) => Some(60nat),
        HandlerKind::TighteningResultUnsubscribe(_) => Some(63nat),
        HandlerKind::MultiSpindleStatusSubscribe(_) => Some(90nat),
        HandlerKind::MultiSpindleStatusUnsubscribe(_) => Some(92nat),
        HandlerKind::MultiSpindleResultSubscribe(_) => Some(100nat),
        HandlerKind::MultiSpindleResultUnsubscribe(_) => Some(103nat),
        _ => None,
    }
}

/// Whether a handler is one of the bare client-acknowledge handlers, which
/// reply with an empty command-accepted response and touch nothing.
pub open spec fn spec_is_client_ack(kind: HandlerKind) -> bool {
    match kind {
        HandlerKind::VehicleIdAck(_) => true,
        HandlerKind::TighteningResultAck(_) => true,
        HandlerKind::MultiSpindleStatusAck(_) => true,
        HandlerKind::MultiSpindleResultAck(_) => true,
        _ => false,
    }
}

/// What each handler does: how the state changes, which events are
/// appended, and which response comes back, as a function of the state and
/// message it was handed.
pub open spec fn spec_handler_post(
    kind: HandlerKind,
    pre: DeviceState,
    post: DeviceState,
    message: Message,
    r: Result<Response, HandlerError>,
    pre_events: Seq<SimulatorEvent>,
    post_events: Seq<SimulatorEvent>,
) -> bool {
    if spec_plain_ack_mid(kind) is Some {
        &&& post == pre
        &&& post_events == pre_events
        &&& r matches Ok(resp) && spec_is_ack(
            resp,
            spec_plain_ack_mid(kind)->Some_0,
            message.revision,
        )
    } else if spec_is_client_ack(kind) {
        &&& post == pre
        &&& post_events == pre_events
        &&& r matches Ok(resp) && spec_is_empty_ack(resp)
    } else {
        match kind {
            HandlerKind::CommunicationStart(_) => {
                &&& post == pre
                &&& post_events == pre_events
                &&& r matches Ok(resp) && {
                    &&& resp.mid == 2
                    &&& resp.revision == message.revision
                    &&& resp.data@ == (CommunicationStartAck {
                        cell_id: pre.cell_id,
                        channel_id: pre.channel_id,
                        controller_name: pre.controller_name,
                        supplier_code: Some(pre.supplier_code),
                    }).spec_serialized()
                }
            },
            HandlerKind::PsetSelect(_) => {
                let pset_id = spec_parse_or(message.data@, 1);
                &&& post.current_pset_id == Some(pset_id)
                &&& post.current_pset_name matches Some(name) && name@ == "Pset_"@
                    + spec_char_digits(pset_id as nat)
                &&& post == (DeviceState {
                    current_pset_id: post.current_pset_id,
                    current_pset_name: post.current_pset_name,
                    ..pre
                })
                &&& post_events.len() == pre_events.len() + 1
                &&& post_events.take(pre_events.len() as int) == pre_events
                &&& post_events.last() matches SimulatorEvent::PsetChanged {
                    pset_id: event_id,
                    pset_name,
                } && event_id == pset_id && pset_name@ == "Pset_"@ + spec_char_digits(
                    pset_id as nat,
                )
                &&& r matches Ok(resp) && resp.mid == 16 && resp.revision == message.revision
                    && resp.data@.len() == 0
            },
            HandlerKind::BatchSize(_) => {
                let size = if message.data@.len() >= 3 {
                    spec_parse_or(message.data@.skip(3), 1)
                } else {
                    1u32
                };
                &&& post.tightening_tracker.spec_is_batch()
                &&& post.tightening_tracker.spec_batch_size() == size
                &&& post.tightening_tracker.spec_counter() == 0
                &&& !post.tightening_tracker.spec_is_complete()
                &&& post.tightening_tracker.spec_sequence()
                    == pre.tightening_tracker.spec_sequence()
                &&& post == (DeviceState { tightening_tracker: post.tightening_tracker, ..pre })
                &&& post_events == pre_events
                &&& r matches Ok(resp) && spec_is_ack(resp, 19, message.revision)
            },
            HandlerKind::BatchReset(_) => {
                &&& post_events == pre_events
                &&& pre.tightening_tracker.spec_is_batch() ==> {
                    &&& post.tightening_tracker.spec_is_batch()
                    &&& post.tightening_tracker.spec_counter() == 0
                    &&& !post.tightening_tracker.spec_is_complete()
                    &&& post.tightening_tracker.spec_batch_size()
                        == pre.tightening_tracker.spec_batch_size()
                    &&& post.tightening_tracker.spec_sequence()
                        == pre.tightening_tracker.spec_sequence()
                    &&& post == (DeviceState {
                        tightening_tracker: post.tightening_tracker,
                        ..pre
                    })
                    &&& r matches Ok(resp) && spec_is_ack(resp, 20, message.revision)
                }
                &&& !pre.tightening_tracker.spec_is_batch() ==> {
                    &&& post == pre
                    &&& r matches Ok(resp) && resp.mid == 4 && resp.revision == message.revision
                        && resp.data@ == (ErrorResponse {
                        failed_mid: 20u16,
                        error_code: data::ErrorCode::InvalidData,
                    }).spec_serialized()
                }
            },
            HandlerKind::ToolDisable(_) => {
                &&& post == (DeviceState { tool_enabled: false, ..pre })
                &&& post_events == pre_events.push(
                    SimulatorEvent::ToolStateChanged { enabled: false },
                )
                &&& r matches Ok(resp) && spec_is_ack(resp, 42, message.revision)
            },
            HandlerKind::ToolEnable(_) => {
                &&& post == (DeviceState { tool_enabled: true, ..pre })
                &&& post_events == pre_events.push(
                    SimulatorEvent::ToolStateChanged { enabled: true },
                )
                &&& r matches Ok(resp) && spec_is_ack(resp, 43, message.revision)
            },
            HandlerKind::VehicleIdDownload(_) => {
                &&& post.vehicle_id is Some
                &&& post == (DeviceState { vehicle_id: post.vehicle_id, ..pre })
                &&& message.data@.len() == 0 ==> post.vehicle_id->Some_0@ == "NO_VIN"@
                &&& message.data@.len() > 0 && spec_is_ascii_bytes(spec_trim(message.data@))
                    ==> post.vehicle_id->Some_0@ == spec_ascii_chars(spec_trim(message.data@))
                &&& post_events.len() == pre_events.len() + 1
                &&& post_events.take(pre_events.len() as int) == pre_events
                &&& post_events.last() matches SimulatorEvent::VehicleIdChanged { vin } && Some(vin)
                    == post.vehicle_id
                &&& r matches Ok(resp) && spec_is_ack(resp, 50, message.revision)
            },
            HandlerKind::BatchIncrement(_) => {
                &&& post.tightening_tracker.spec_is_batch()
                    == pre.tightening_tracker.spec_is_batch()
                &&& post == (DeviceState { tightening_tracker: post.tightening_tracker, ..pre })
                &&& !pre.tightening_tracker.spec_is_batch() ==> post == pre
                &&& pre.tightening_tracker.spec_is_batch() ==> {
                    &&& post.tightening_tracker.spec_counter() == (
                    if pre.tightening_tracker.spec_counter()
                        < pre.tightening_tracker.spec_batch_size() {
                        pre.tightening_tracker.spec_counter() + 1
                    } else {
                        pre.tightening_tracker.spec_counter() as int
                    })
                    &&& post.tightening_tracker.spec_batch_size()
                        == pre.tightening_tracker.spec_batch_size()
                    &&& post.tightening_tracker.spec_sequence()
                        == pre.tightening_tracker.spec_sequence()
                }
                &&& post_events.len() == pre_events.len() + 1
                &&& post_events.take(pre_events.len() as int) == pre_events
                &&& post_events.last() matches SimulatorEvent::AutoTighteningProgress {
                    counter,
                    target_size,
                    running,
                } && counter == post.tightening_tracker.spec_counter() && target_size
                    == post.tightening_tracker.spec_batch_size() && running
                &&& r matches Ok(resp) && spec_is_ack(resp, 128, message.revision)
            },
            HandlerKind::KeepAlive(_) => {
                &&& post == pre
                &&& post_events == pre_events
                &&& r matches Ok(resp) && resp.mid == 9999 && resp.revision == message.revision
                    && resp.data@.len() == 0
            },
            _ => false,
        }
    }
}

impl HandlerKind {
    /// Handle a message: mutate the device state, append the events the
    /// mutation emits, and produce the response.
    pub fn handle(
        &self,
        state: &mut DeviceState,
        message: &Message,
        events: &mut Vec<SimulatorEvent>,
    ) -> (r: Result<Response, HandlerError>)
        requires
            old(state).tightening_tracker.spec_sequence() < u32::MAX,
        ensures
            spec_handler_post(
                *self,
                *old(state),
                *final(state),
                *message,
                r,
                old(events)@,
                final(events)@,
            ),
    {
        match self {
            HandlerKind::CommunicationStart(_) => {
                let ack_data = CommunicationStartAck::with_values(
                    state.cell_id,
                    state.channel_id,
                    state.controller_name.clone(),
                    Some(state.supplier_code.clone()),
                );
                Ok(Response::from_data(2, message.revision, ack_data))
            },
            HandlerKind::CommunicationStop(_) => {
                Ok(Response::from_data(5, message.revision, CommandAccepted::with_mid(3)))
            },
            HandlerKind::PsetSubscription(_) => {
                Ok(Response::from_data(5, message.revision, CommandAccepted::with_mid(14)))
            },
            HandlerKind::PsetUnsubscribe(_) => {
                Ok(Response::from_data(5, message.revision, CommandAccepted::with_mid(17)))
            },
            HandlerKind::PsetSelect(_) => {
                let pset_id = parse_trimmed_or(message.data.as_slice(), 1);
                let mut name = String::from_str("Pset_");
                let digits = uint_to_string(pset_id as u64);
                name.append(digits.as_str());
                state.set_pset(pset_id, Some(name.clone()));
                events.push(SimulatorEvent::PsetChanged { pset_id, pset_name: name });
                proof {
                    assert(final(events)@.take(old(events)@.len() as int) =~= old(events)@);
                }
                Ok(Response::new(16, message.revision, Vec::new()))
            },
            HandlerKind::BatchSize(_) => {
                let batch_size: u32 = if message.data.len() >= 3 {
                    let rest = vstd::slice::slice_subrange(
                        message.data.as_slice(),
                        3,
                        message.data.len(),
                    );
                    proof {
                        assert(rest@ =~= message.data@.skip(3));
                    }
                    parse_trimmed_or(rest, 1)
                } else {
                    1
                };
                state.set_batch_size(batch_size);
                Ok(Response::from_data(5, message.revision, CommandAccepted::with_mid(19)))
            },
            HandlerKind::BatchReset(_) => {
                let was_batch_mode = state.reset_batch();
                if was_batch_mode {
                    Ok(Response::from_data(5, message.revision, CommandAccepted::with_mid(20)))
                } else {
                    Ok(Response::from_data(4, message.revision, ErrorResponse::invalid_data(20)))
                }
            },
            HandlerKind::ToolDisable(_) => {
                state.disable_tool();
                events.push(SimulatorEvent::ToolStateChanged { enabled: false });
                Ok(Response::from_data(5, message.revision, CommandAccepted::with_mid(42)))
            },
            HandlerKind::ToolEnable(_) => {
                state.enable_tool();
                events.push(SimulatorEvent::ToolStateChanged { enabled: true });
                Ok(Response::from_data(5, message.revision, CommandAccepted::with_mid(43)))
            },
            HandlerKind::VehicleIdDownload(_) => {
                let vin = vin_of_message(message);
                state.set_vehicle_id(vin.clone());
                events.push(SimulatorEvent::VehicleIdChanged { vin });
                proof {
                    assert(final(events)@.take(old(events)@.len() as int) =~= old(events)@);
                }
                Ok(Response::from_data(5, message.revision, CommandAccepted::with_mid(50)))
            },
            HandlerKind::VehicleIdSubscription(_) => {
                Ok(Response::from_data(5, message.revision, CommandAccepted::with_mid(51)))
            },
            HandlerKind::VehicleIdAck(_) => Ok(Response::new(5, 1, Vec::new())),
            HandlerKind::VehicleIdUnsubscribe(_) => {
                Ok(Response::from_data(5, message.revision, CommandAccepted::with_mid(54)))
            },
            HandlerKind::TighteningResultSubscription(_) => {
                Ok(Response::from_data(5, message.revision, CommandAccepted::with_mid(60)))
            },
            HandlerKind::TighteningResultAck(_) => Ok(Response::new(5, 1, Vec::new())),
            HandlerKind::TighteningResultUnsubscribe(_) => {
                Ok(Response::from_data(5, message.revision, CommandAccepted::with_mid(63)))
            },
            HandlerKind::MultiSpindleStatusSubscribe(_) => {
                Ok(Response::from_data(5, message.revision, CommandAccepted::with_mid(90)))
            },
            HandlerKind::MultiSpindleStatusUnsubscribe(_) => {
                Ok(Response::from_data(5, message.revision, CommandAccepted::with_mid(92)))
            },
            HandlerKind::MultiSpindleStatusAck(_) => Ok(Response::new(5, 1, Vec::new())),
            HandlerKind::MultiSpindleResultSubscribe(_) => {
                Ok(Response::from_data(5, message.revision, CommandAccepted::with_mid(100)))
            },
            HandlerKind::MultiSpindleResultAck(_) => Ok(Response::new(5, 1, Vec::new())),
            HandlerKind::MultiSpindleResultUnsubscribe(_) => {
                Ok(Response::from_data(5, message.revision, CommandAccepted::with_mid(103)))
            },
            HandlerKind::BatchIncrement(_) => {
                let new_counter = state.increment_batch();
                let target_size = state.tightening_tracker.batch_size();
                events.push(
                    SimulatorEvent::AutoTighteningProgress {
                        counter: new_counter,
                        target_size,
                        running: true,
                    },
                );
                proof {
                    assert(final(events)@.take(old(events)@.len() as int) =~= old(events)@);
                }
                Ok(Response::from_data(5, message.revision, CommandAccepted::with_mid(128)))
            },
            HandlerKind::KeepAlive(_) => Ok(Response::new(9999, message.revision, Vec::new())),
        }
    }
}

/// Registry that routes MIDs to their handlers.
pub struct HandlerRegistry {
    handlers: Vec<(u16, HandlerKind)>,
}

/// The handler an entry list holds for a MID: the most recently registered
/// entry wins, so registering again replaces the handler.
pub open spec fn spec_lookup(entries: Seq<(u16, HandlerKind)>, mid: u16) -> Option<HandlerKind>
    decreases entries.len(),
{
    if entries.len() == 0 {
        None
    } else if entries.last().0 == mid {
        Some(entries.last().1)
    } else {
        spec_lookup(entries.drop_last(), mid)
    }
}

impl HandlerRegistry {
    /// The entries of this registry, in registration order.
    pub closed spec fn spec_entries(&self) -> Seq<(u16, HandlerKind)> {
        self.handlers@
    }

    /// The handler registered for a MID.
    pub open spec fn spec_handler_for(&self, mid: u16) -> Option<HandlerKind> {
        spec_lookup(self.spec_entries(), mid)
    }

    /// Create an empty registry.
    pub fn new() -> (r: Self)
        ensures
            r.spec_entries().len() == 0,
            forall|m: u16| r.spec_handler_for(m) is None,
    {
        Self { handlers: Vec::new() }
    }

    /// Register a handler for a MID, replacing any handler registered for
    /// that MID before.
    pub fn register(&mut self, mid: u16, handler: HandlerKind)
        ensures
            final(self).spec_entries() == old(self).spec_entries().push((mid, handler)),
            forall|m: u16|
                #[trigger] final(self).spec_handler_for(m) == if m == mid {
                    Some(handler)
                } else {
                    old(self).spec_handler_for(m)
                },
    {
        self.handlers.push((mid, handler));
        proof {
            assert forall|m: u16|
                #[trigger] final(self).spec_handler_for(m) == (if m == mid {
                    Some(handler)
                } else {
                    old(self).spec_handler_for(m)
                }) by {
                assert(final(self).spec_entries().drop_last() =~= old(self).spec_entries());
            }
        }
    }

    /// Process a message with the handler registered for its MID.  An
    /// unregistered MID is rejected and changes nothing.
    pub fn handle_message(
        &self,
        state: &mut DeviceState,
        message: &Message,
        events: &mut Vec<SimulatorEvent>,
    ) -> (r: Result<Response, HandlerError>)
        requires
            old(state).tightening_tracker.spec_sequence() < u32::MAX,
        ensures
            self.spec_handler_for(message.mid) is None ==> {
                &&& r == Err::<Response, HandlerError>(HandlerError::UnknownMid(message.mid))
                &&& *final(state) == *old(state)
                &&& final(events)@ == old(events)@
            },
            self.spec_handler_for(message.mid) matches Some(kind) ==> spec_handler_post(
                kind,
                *old(state),
                *final(state),
                *message,
                r,
                old(events)@,
                final(events)@,
            ),
    {
        let mut i: usize = 0;
        let mut found: Option<usize> = None;
        while i < self.handlers.len()
            invariant
                0 <= i <= self.handlers@.len(),
                match found {
                    None => spec_lookup(self.handlers@.take(i as int), message.mid) is None,
                    Some(j) => {
                        &&& 0 <= j < i
                        &&& self.handlers@[j as int].0 == message.mid
                        &&& spec_lookup(self.handlers@.take(i as int), message.mid) == Some(
                            self.handlers@[j as int].1,
                        )
                    },
                },
            decreases self.handlers@.len() - i,
        {
            proof {
                assert(self.handlers@.take(i + 1).drop_last() =~= self.handlers@.take(i as int));
                assert(self.handlers@.take(i + 1).last() == self.handlers@[i as int]);
            }
            if self.handlers[i].0 == message.mid {
                found = Some(i);
            }
            i = i + 1;
        }
        proof {
            assert(self.handlers@.take(i as int) =~= self.handlers@);
        }
        match found {
            Some(j) => self.handlers[j].1.handle(state, message, events),
            None => Err(HandlerError::UnknownMid(message.mid)),
        }
    }
}

/// Create a registry with all standard handlers registered: the MIDs of the
/// table in the protocol description, each mapped to its handler, and no
/// other MID mapped at all, so every other MID is rejected as unknown.
pub fn create_default_registry() -> (r: HandlerRegistry)
    ensures
        forall|m: u16|
            #[trigger] r.spec_handler_for(m) is Some ==> (m == 1 || m == 3 || m == 14 || m == 17
                || m == 18 || m == 19 || m == 20 || m == 42 || m == 43 || m == 50 || m == 51 || m
                == 53 || m == 54 || m == 60 || m == 62 || m == 63 || m == 90 || m == 92 || m == 93
                || m == 100 || m == 102 || m == 103 || m == 128 || m == 9999),
        r.spec_handler_for(1) matches Some(k) && k matches HandlerKind::CommunicationStart(_),
        r.spec_handler_for(3) matches Some(k) && k matches HandlerKind::CommunicationStop(_),
        r.spec_handler_for(14) matches Some(k) && k matches HandlerKind::PsetSubscription(_),
        r.spec_handler_for(17) matches Some(k) && k matches HandlerKind::PsetUnsubscribe(_),
        r.spec_handler_for(18) matches Some(k) && k matches HandlerKind::PsetSelect(_),
        r.spec_handler_for(19) matches Some(k) && k matches HandlerKind::BatchSize(_),
        r.spec_handler_for(20) matches Some(k) && k matches HandlerKind::BatchReset(_),
        r.spec_handler_for(42) matches Some(k) && k matches HandlerKind::ToolDisable(_),
        r.spec_handler_for(43) matches Some(k) && k matches HandlerKind::ToolEnable(_),
        r.spec_handler_for(50) matches Some(k) && k matches HandlerKind::VehicleIdDownload(_),
        r.spec_handler_for(51) matches Some(k) && k matches HandlerKind::VehicleIdSubscription(_),
        r.spec_handler_for(53) matches Some(k) && k matches HandlerKind::VehicleIdAck(_),
        r.spec_handler_for(54) matches Some(k) && k matches HandlerKind::VehicleIdUnsubscribe(_),
        r.spec_handler_for(60) matches Some(k) && k matches HandlerKind::TighteningResultSubscription(_),
        r.spec_handler_for(62) matches Some(k) && k matches HandlerKind::TighteningResultAck(_),
        r.spec_handler_for(63) matches Some(k) && k matches HandlerKind::TighteningResultUnsubscribe(_),
        r.spec_handler_for(90) matches Some(k) && k matches HandlerKind::MultiSpindleStatusSubscribe(_),
        r.spec_handler_for(92) matches Some(k) && k matches HandlerKind::MultiSpindleStatusUnsubscribe(_),
        r.spec_handler_for(93) matches Some(k) && k matches HandlerKind::MultiSpindleStatusAck(_),
        r.spec_handler_for(100) matches Some(k) && k matches HandlerKind::MultiSpindleResultSubscribe(_),
        r.spec_handler_for(102) matches Some(k) && k matches HandlerKind::MultiSpindleResultAck(_),
        r.spec_handler_for(103) matches Some(k) && k matches HandlerKind::MultiSpindleResultUnsubscribe(_),
        r.spec_handler_for(128) matches Some(k) && k matches HandlerKind::BatchIncrement(_),
        r.spec_handler_for(9999) matches Some(k) && k matches HandlerKind::KeepAlive(_),
{
    let mut registry = HandlerRegistry::new();

    registry.register(1, HandlerKind::CommunicationStart(CommunicationStartHandler::new()));
    registry.register(3, HandlerKind::CommunicationStop(CommunicationStopHandler::new()));
    registry.register(14, HandlerKind::PsetSubscription(PsetSubscriptionHandler));
    registry.register(17, HandlerKind::PsetUnsubscribe(PsetUnsubscribeHandler));
    registry.register(18, HandlerKind::PsetSelect(PsetSelectHandler));
    registry.register(19, HandlerKind::BatchSize(BatchSizeHandler));
    registry.register(20, HandlerKind::BatchReset(BatchResetHandler));
    registry.register(42, HandlerKind::ToolDisable(ToolDisableHandler));
    registry.register(43, HandlerKind::ToolEnable(ToolEnableHandler));
    registry.register(50, HandlerKind::VehicleIdDownload(VehicleIdDownloadHandler));
    registry.register(51, HandlerKind::VehicleIdSubscription(VehicleIdSubscriptionHandler));
    registry.register(53, HandlerKind::VehicleIdAck(VehicleIdAckHandler));
    registry.register(54, HandlerKind::VehicleIdUnsubscribe(VehicleIdUnsubscribeHandler));
    registry.register(
        60,
        HandlerKind::TighteningResultSubscription(TighteningResultSubscriptionHandler),
    );
    registry.register(62, HandlerKind::TighteningResultAck(TighteningResultAckHandler));
    registry.register(
        63,
        HandlerKind::TighteningResultUnsubscribe(TighteningResultUnsubscribeHandler),
    );
    registry.register(
        90,
        HandlerKind::MultiSpindleStatusSubscribe(MultiSpindleStatusSubscribeHandler),
    );
    registry.register(
        92,
        HandlerKind::MultiSpindleStatusUnsubscribe(MultiSpindleStatusUnsubscribeHandler),
    );
    registry.register(93, HandlerKind::MultiSpindleStatusAck(MultiSpindleStatusAckHandler));
    registry.register(
        100,
        HandlerKind::MultiSpindleResultSubscribe(MultiSpindleResultSubscribeHandler),
    );
    registry.register(102, HandlerKind::MultiSpindleResultAck(MultiSpindleResultAckHandler));
    registry.register(
        103,
        HandlerKind::MultiSpindleResultUnsubscribe(MultiSpindleResultUnsubscribeHandler),
    );
    registry.register(128, HandlerKind::BatchIncrement(BatchIncrementHandler));
    registry.register(9999, HandlerKind::KeepAlive(KeepAliveHandler));

    registry
}

} // verus!
