//! Per-connection decisions of the protocol loop: which wire message, if
//! any, an event becomes for a session, and the fixed responses the loop
//! sends on its own.

use vstd::prelude::*;

use crate::events::SimulatorEvent;
use crate::handler::data::{
    ErrorResponse, MultiSpindleResultBroadcast, MultiSpindleStatusBroadcast, PsetSelected,
    VehicleIdBroadcast,
};
use crate::protocol::response_data::ResponseData;
use crate::protocol::Response;
use crate::subscriptions::Subscriptions;

verus! {

/// Map a broadcast event to the wire message a session receives, filtered
/// by its subscriptions: tightening results, parameter set selections,
/// vehicle ids and the two multi-spindle broadcasts go out when subscribed;
/// every other event has no wire mapping.
pub fn event_response(event: &SimulatorEvent, subscriptions: &Subscriptions) -> (r: Option<
    Response,
>)
    ensures
        match *event {
            SimulatorEvent::TighteningCompleted { result } => {
                if subscriptions.tightening_result {
                    r matches Some(resp) && resp.mid == 61 && resp.revision == 1 && resp.data@
                        == result.spec_serialized()
                } else {
                    r is None
                }
            },
            SimulatorEvent::PsetChanged { pset_id, .. } => {
                if subscriptions.pset_selection {
                    r matches Some(resp) && resp.mid == 15 && resp.revision == 1 && resp.data@
                        == (PsetSelected { pset_id }).spec_serialized()
                } else {
                    r is None
                }
            },
            SimulatorEvent::VehicleIdChanged { vin } => {
                if subscriptions.vehicle_id {
                    r matches Some(resp) && resp.mid == 52 && resp.revision == 1 && resp.data@
                        == (VehicleIdBroadcast { vin_number: vin }).spec_serialized()
                } else {
                    r is None
                }
            },
            SimulatorEvent::MultiSpindleStatusCompleted { status } => {
                if subscriptions.multi_spindle_status {
                    r matches Some(resp) && resp.mid == 91 && resp.revision == 1 && resp.data@
                        == (MultiSpindleStatusBroadcast { status }).spec_serialized()
                } else {
                    r is None
                }
            },
            SimulatorEvent::MultiSpindleResultCompleted { result } => {
                if subscriptions.multi_spindle_result {
                    r matches Some(resp) && resp.mid == 101 && resp.revision == 1 && (exists|
                        b: MultiSpindleResultBroadcast,
                    |
                        {
                            &&& #[trigger] b.spec_serialized() == resp.data@
                            &&& b.result.result_id == result.result_id
                            &&& b.result.sync_id == result.sync_id
                            &&& b.result.timestamp == result.timestamp
                            &&& b.result.overall_status == result.overall_status
                            &&& b.result.spindle_count == result.spindle_count
                            &&& b.result.spindle_results@ == result.spindle_results@
                            &&& b.vin_number@.len() == 0
                            &&& b.job_id == 1
                            &&& b.pset_id == 1
                            &&& b.batch_size == 0
                            &&& b.batch_counter == 0
                            &&& b.batch_status == 2
                        })
                } else {
                    r is None
                }
            },
            _ => r is None,
        },
{
    match event {
        SimulatorEvent::TighteningCompleted { result } => {
            if subscriptions.is_subscribed_to_tightening_result() {
                Some(Response::from_data(61, 1, clone_tightening_result(result)))
            } else {
                None
            }
        },
        SimulatorEvent::PsetChanged { pset_id, pset_name } => {
            let _ = pset_name;
            if subscriptions.is_subscribed_to_pset_selection() {
                Some(Response::from_data(15, 1, PsetSelected::new(*pset_id)))
            } else {
                None
            }
        },
        SimulatorEvent::VehicleIdChanged { vin } => {
            if subscriptions.is_subscribed_to_vehicle_id() {
                Some(Response::from_data(52, 1, VehicleIdBroadcast::new(vin.clone())))
            } else {
                None
            }
        },
        SimulatorEvent::MultiSpindleStatusCompleted { status } => {
            if subscriptions.is_subscribed_to_multi_spindle_status() {
                Some(
                    Response::from_data(
                        91,
                        1,
                        MultiSpindleStatusBroadcast::new(clone_status(status)),
                    ),
                )
            } else {
                None
            }
        },
        SimulatorEvent::MultiSpindleResultCompleted { result } => {
            if subscriptions.is_subscribed_to_multi_spindle_result() {
                let broadcast = MultiSpindleResultBroadcast::new(
                    clone_result(result),
                    String::new(),
                    1,
                    1,
                    0,
                    0,
                    2,
                );
                Some(Response::from_data(101, 1, broadcast))
            } else {
                None
            }
        },
        SimulatorEvent::ToolStateChanged { .. } => None,
        SimulatorEvent::BatchCompleted { .. } => None,
        SimulatorEvent::AutoTighteningProgress { .. } => None,
    }
}

/// A copy of a tightening result record.
fn clone_tightening_result(result: &crate::handler::data::TighteningResult) -> (r:
    crate::handler::data::TighteningResult)
    ensures
        r == *result,
{
    crate::handler::data::TighteningResult {
        cell_id: result.cell_id,
        channel_id: result.channel_id,
        controller_name: result.controller_name.clone(),
        vin_number: clone_opt_string(&result.vin_number),
        job_id: result.job_id,
        pset_id: result.pset_id,
        batch_size: result.batch_size,
        batch_counter: result.batch_counter,
        tightening_status: result.tightening_status,
        torque_status: result.torque_status,
        angle_status: result.angle_status,
        torque_min_cnm: result.torque_min_cnm,
        torque_max_cnm: result.torque_max_cnm,
        torque_target_cnm: result.torque_target_cnm,
        torque_cnm: result.torque_cnm,
        angle_min_ddeg: result.angle_min_ddeg,
        angle_max_ddeg: result.angle_max_ddeg,
        angle_target_ddeg: result.angle_target_ddeg,
        angle_ddeg: result.angle_ddeg,
        timestamp: result.timestamp.clone(),
        last_pset_change: clone_opt_string(&result.last_pset_change),
        batch_status: result.batch_status,
        tightening_id: result.tightening_id,
    }
}

/// A copy of an optional string.
fn clone_opt_string(s: &Option<String>) -> (r: Option<String>)
    ensures
        r == *s,
{
    match s {
        Some(v) => Some(v.clone()),
        None => None,
    }
}

/// A copy of a multi-spindle status.
fn clone_status(status: &crate::multi_spindle::MultiSpindleStatus) -> (r:
    crate::multi_spindle::MultiSpindleStatus)
    ensures
        r == *status,
{
    crate::multi_spindle::MultiSpindleStatus {
        sync_id: status.sync_id,
        status: status.status,
        spindle_count: status.spindle_count,
        timestamp: status.timestamp.clone(),
    }
}

/// A copy of a multi-spindle result.
fn clone_result(result: &crate::multi_spindle::MultiSpindleResult) -> (r:
    crate::multi_spindle::MultiSpindleResult)
    ensures
        r.result_id == result.result_id,
        r.sync_id == result.sync_id,
        r.timestamp == result.timestamp,
        r.overall_status == result.overall_status,
        r.spindle_count == result.spindle_count,
        r.spindle_results@ == result.spindle_results@,
{
    let mut spindles: Vec<crate::multi_spindle::SpindleResult> = Vec::new();
    let mut i: usize = 0;
    while i < result.spindle_results.len()
        invariant
            0 <= i <= result.spindle_results@.len(),
            spindles@ == result.spindle_results@.take(i as int),
        decreases result.spindle_results@.len() - i,
    {
        spindles.push(result.spindle_results[i]);
        proof {
            assert(spindles@ =~= result.spindle_results@.take(i + 1));
        }
        i = i + 1;
    }
    proof {
        assert(spindles@ =~= result.spindle_results@);
    }
    let r = crate::multi_spindle::MultiSpindleResult {
        result_id: result.result_id,
        sync_id: result.sync_id,
        timestamp: result.timestamp.clone(),
        overall_status: result.overall_status,
        spindle_count: result.spindle_count,
        spindle_results: spindles,
    };
    r
}

/// The negative acknowledge the loop sends when a handler fails: the wire
/// error response naming the failed MID with the generic code.
pub fn generic_error_response(failed_mid: u16, revision: u8) -> (r: Response)
    ensures
        r.mid == 4,
        r.revision == revision,
        r.data@ == (ErrorResponse {
            failed_mid,
            error_code: crate::handler::data::ErrorCode::GenericError,
        }).spec_serialized(),
{
    Response::from_data(4, revision, ErrorResponse::generic(failed_mid))
}

/// The vehicle id message pushed right after a vehicle id subscription:
/// an empty vehicle id padded to twenty-five bytes.
pub fn initial_vin_response() -> (r: Response)
    ensures
        r.mid == 52,
        r.revision == 1,
        r.data@.len() == 25,
        r.data@ == crate::protocol::field::spec_spaces(25),
{
    let r = Response::from_data(52, 1, VehicleIdBroadcast::new(String::new()));
    proof {
        assert(r.data@ =~= crate::protocol::field::spec_spaces(25));
    }
    r
}

} // verus!
