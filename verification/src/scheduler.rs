//! The auto-tightening scheduler's decisions and cycle steps.
//!
//! The surrounding loop performs the sleeps and hands back clock readings;
//! everything that decides or computes lives here: whether to run a cycle,
//! the parameters drawn from the selected set, the simulated outcome, the
//! bookkeeping update and the events to publish.

use vstd::prelude::*;

use crate::batch_manager::{BatchStatus, TighteningInfo};
use crate::clock::now_stamp_coloned;
use crate::device_fsm::{
    spec_actual, spec_variation1, spec_variation2, DeviceFSM, DeviceFSMState, TighteningParams,
    MAX_TARGET,
};
use crate::events::SimulatorEvent;
use crate::handler::data::TighteningResult;
use crate::multi_spindle::generate_multi_spindle_results;
use crate::pset::Pset;
use crate::state::DeviceState;

verus! {

/// What the scheduler should do at a loop boundary.
#[derive(Debug, Clone, Copy, PartialEq, Eq, Structural)]
pub enum SchedulerDecision {
    /// The tool is disabled: stop the scheduler.
    Exit,
    /// The batch is complete (or empty): sleep and poll again.
    Sleep,
    /// Run one tightening cycle.
    Run,
}

/// Decide what the scheduler does next: exit when the tool is disabled,
/// wait when the tracker asks to wait for a new batch configuration or no
/// work remains in the batch, and run a cycle otherwise.
pub fn scheduler_poll(state: &DeviceState) -> (r: SchedulerDecision)
    ensures
        !state.tool_enabled ==> r == SchedulerDecision::Exit,
        state.tool_enabled && (state.tightening_tracker.spec_is_complete() || (
        state.tightening_tracker.spec_is_batch()
            && state.tightening_tracker.spec_counter()
            >= state.tightening_tracker.spec_batch_size())) ==> r == SchedulerDecision::Sleep,
        state.tool_enabled && !state.tightening_tracker.spec_is_complete() && (
        state.tightening_tracker.spec_is_batch() ==> state.tightening_tracker.spec_counter()
            < state.tightening_tracker.spec_batch_size()) ==> r == SchedulerDecision::Run,
{
    if !state.tool_enabled {
        return SchedulerDecision::Exit;
    }
    if state.tightening_tracker.should_wait_for_config() {
        return SchedulerDecision::Sleep;
    }
    match state.tightening_tracker.remaining_work() {
        Some(remaining) => {
            if remaining == 0 {
                SchedulerDecision::Sleep
            } else {
                SchedulerDecision::Run
            }
        },
        None => SchedulerDecision::Run,
    }
}

/// The tightening parameters drawn from a selected parameter set: each
/// target is the midpoint of its range; without a set, the default test
/// parameters are used.
pub fn get_tightening_params(pset: Option<&Pset>, duration_ms: u64) -> (r: TighteningParams)
    requires
        pset matches Some(p) ==> p.spec_bounds_ok() && p.torque_max_cnm <= MAX_TARGET,
        duration_ms >= 1,
    ensures
        r.wf(),
        pset matches Some(p) ==> {
            &&& r.target_torque_cnm == (p.torque_min_cnm + p.torque_max_cnm) / 2
            &&& r.torque_min_cnm == p.torque_min_cnm
            &&& r.torque_max_cnm == p.torque_max_cnm
            &&& r.target_angle_ddeg == (p.angle_min_ddeg + p.angle_max_ddeg) / 2
            &&& r.angle_min_ddeg == p.angle_min_ddeg
            &&& r.angle_max_ddeg == p.angle_max_ddeg
            &&& r.duration_ms == duration_ms
        },
        pset is None ==> r == (TighteningParams {
            target_torque_cnm: 1250u32,
            torque_min_cnm: 1000u32,
            torque_max_cnm: 1500u32,
            target_angle_ddeg: 400u32,
            angle_min_ddeg: 300u32,
            angle_max_ddeg: 500u32,
            duration_ms: 1500u64,
        }),
{
    match pset {
        Some(p) => {
            let target_torque = ((p.torque_min_cnm as u64 + p.torque_max_cnm as u64) / 2) as u32;
            let target_angle = ((p.angle_min_ddeg as u64 + p.angle_max_ddeg as u64) / 2) as u32;
            TighteningParams {
                target_torque_cnm: target_torque,
                torque_min_cnm: p.torque_min_cnm,
                torque_max_cnm: p.torque_max_cnm,
                target_angle_ddeg: target_angle,
                angle_min_ddeg: p.angle_min_ddeg,
                angle_max_ddeg: p.angle_max_ddeg,
                duration_ms,
            }
        },
        None => TighteningParams::default_test(),
    }
}

/// Snapshot the machine as just started on these parameters: a tightening
/// at zero progress with the parameter targets; nothing else changes.
pub fn begin_cycle(state: &mut DeviceState, params: &TighteningParams)
    requires
        params.duration_ms >= 1,
    ensures
        *final(state) == (DeviceState {
            device_fsm_state: DeviceFSMState::Tightening {
                progress_permille: 0u32,
                elapsed_ms: 0u64,
                target_torque_cnm: params.target_torque_cnm,
                target_angle_ddeg: params.target_angle_ddeg,
            },
            ..*old(state)
        }),
{
    let fsm = DeviceFSM::new().start_tightening(clone_params(params), 0);
    state.device_fsm_state = DeviceFSMState::tightening(&fsm, 0);
}

/// The final OK decision of a cycle: the natural outcome, overridden to NOK
/// when the random percent draw falls below the failure rate.
pub fn decide_final_ok(micros: u64, failure_rate_percent: u8, natural_ok: bool) -> (r: bool)
    ensures
        r == (micros % 100 >= failure_rate_percent && natural_ok),
{
    let draw = (micros % 100) as u8;
    draw >= failure_rate_percent && natural_ok
}

/// The simulated actual values stay within five per cent above the scaled
/// target, so they fit the record's signed fields.
proof fn lemma_actual_bounded(target: u32, variation: u64)
    requires
        target <= MAX_TARGET,
        variation <= 999,
    ensures
        spec_actual(target, variation) <= 110_000_000,
{
    assert(target * (9500 + variation) <= (MAX_TARGET as u64) * 10499) by (nonlinear_arith)
        requires
            target <= MAX_TARGET,
            variation <= 999,
    ;
}

/// Build the full tightening record from the device state, the batch
/// bookkeeping of this tightening, the measured values and the parameters.
/// The timestamp is read from the clock; the batch status field reports
/// completion, or "not used" while unfinished or in single mode.
pub fn build_tightening_result(
    state: &DeviceState,
    info: &TighteningInfo,
    torque_cnm: u32,
    angle_ddeg: u32,
    tightening_ok: bool,
    torque_ok: bool,
    angle_ok: bool,
    params: &TighteningParams,
) -> (r: TighteningResult)
    requires
        torque_cnm <= i32::MAX,
        angle_ddeg <= i32::MAX,
        params.target_torque_cnm <= MAX_TARGET,
        params.torque_min_cnm <= MAX_TARGET,
        params.torque_max_cnm <= MAX_TARGET,
        params.target_angle_ddeg <= MAX_TARGET,
        params.angle_min_ddeg <= MAX_TARGET,
        params.angle_max_ddeg <= MAX_TARGET,
    ensures
        r.cell_id == state.cell_id,
        r.channel_id == state.channel_id,
        r.controller_name == state.controller_name,
        r.vin_number == state.vehicle_id,
        r.job_id == (if state.current_job_id is Some {
            state.current_job_id->Some_0
        } else {
            1u32
        }),
        r.pset_id == (if state.current_pset_id is Some {
            state.current_pset_id->Some_0
        } else {
            1u32
        }),
        r.batch_size == state.tightening_tracker.spec_batch_size(),
        r.batch_counter == info.counter,
        r.tightening_status == tightening_ok,
        r.torque_status == torque_ok,
        r.angle_status == angle_ok,
        r.torque_min_cnm == params.torque_min_cnm,
        r.torque_max_cnm == params.torque_max_cnm,
        r.torque_target_cnm == params.target_torque_cnm,
        r.torque_cnm == torque_cnm,
        r.angle_min_ddeg == params.angle_min_ddeg,
        r.angle_max_ddeg == params.angle_max_ddeg,
        r.angle_target_ddeg == params.target_angle_ddeg,
        r.angle_ddeg == angle_ddeg,
        r.last_pset_change is None,
        r.batch_status == (match info.batch_status {
            BatchStatus::NotFinished => None::<bool>,
            BatchStatus::CompletedOk => Some(true),
            BatchStatus::CompletedNok => Some(false),
            BatchStatus::NotUsed => None::<bool>,
        }),
        r.tightening_id == Some(info.tightening_id),
{
    let batch_status = match info.batch_status {
        BatchStatus::NotFinished => None,
        BatchStatus::CompletedOk => Some(true),
        BatchStatus::CompletedNok => Some(false),
        BatchStatus::NotUsed => None,
    };

    TighteningResult {
        cell_id: state.cell_id,
        channel_id: state.channel_id,
        controller_name: state.controller_name.clone(),
        vin_number: match &state.vehicle_id {
            Some(vin) => Some(vin.clone()),
            None => None,
        },
        job_id: match state.current_job_id {
            Some(id) => id,
            None => 1,
        },
        pset_id: match state.current_pset_id {
            Some(id) => id,
            None => 1,
        },
        batch_size: state.tightening_tracker.batch_size(),
        batch_counter: info.counter,
        tightening_status: tightening_ok,
        torque_status: torque_ok,
        angle_status: angle_ok,
        torque_min_cnm: params.torque_min_cnm as i32,
        torque_max_cnm: params.torque_max_cnm as i32,
        torque_target_cnm: params.target_torque_cnm as i32,
        torque_cnm: torque_cnm as i32,
        angle_min_ddeg: params.angle_min_ddeg as i32,
        angle_max_ddeg: params.angle_max_ddeg as i32,
        angle_target_ddeg: params.target_angle_ddeg as i32,
        angle_ddeg: angle_ddeg as i32,
        timestamp: now_stamp_coloned(),
        last_pset_change: None,
        batch_status,
        tightening_id: Some(info.tightening_id),
    }
}

/// Run one simulated tightening against the tracker and emit the record:
/// the outcome is computed from the parameters and the nanosecond reading,
/// recorded in the tracker (the sequence advances by exactly one), turned
/// into a full tightening record and published; a completed batch also
/// publishes its completion.  Returns the batch counter after recording.
pub fn simulate_once(
    state: &mut DeviceState,
    params: &TighteningParams,
    nanos: u64,
    events: &mut Vec<SimulatorEvent>,
) -> (r: u32)
    requires
        params.wf(),
        old(state).tightening_tracker.spec_sequence() < u32::MAX,
        old(state).tightening_tracker.spec_counter() < u32::MAX,
        old(state).tightening_tracker.spec_is_batch() ==> old(state).tightening_tracker.spec_batch()->Some_0.spec_sequence() < u32::MAX,
    ensures
        final(state).tightening_tracker.spec_sequence() == old(state).tightening_tracker.spec_sequence() + 1,
        final(state).tightening_tracker.spec_is_batch() == old(state).tightening_tracker.spec_is_batch(),
        *final(state) == (DeviceState {
            tightening_tracker: final(state).tightening_tracker,
            ..*old(state)
        }),
        r == final(state).tightening_tracker.spec_counter(),
        ({
            let ok = spec_natural_ok(*params, nanos);
            &&& !old(state).tightening_tracker.spec_is_batch() ==> final(state).tightening_tracker.spec_counter() == 0
            &&& old(state).tightening_tracker.spec_is_batch() ==> final(state).tightening_tracker.spec_counter() == old(state).tightening_tracker.spec_counter() + (
            if ok && !old(state).tightening_tracker.spec_is_complete() {
                1int
            } else {
                0int
            })
        }),
        final(events)@.len() >= old(events)@.len() + 1,
        final(events)@.take(old(events)@.len() as int) == old(events)@,
        final(events)@[old(events)@.len() as int] matches SimulatorEvent::TighteningCompleted {
            result,
        } && {
            &&& result.batch_counter == r
            &&& result.tightening_status == spec_natural_ok(*params, nanos)
            &&& result.tightening_id == Some(
                (old(state).tightening_tracker.spec_sequence() + 1) as u32,
            )
            &&& result.torque_cnm == spec_actual(
                params.target_torque_cnm,
                spec_variation1(nanos),
            ) as int
            &&& result.angle_ddeg == spec_actual(
                params.target_angle_ddeg,
                spec_variation2(nanos),
            ) as int
        },
        final(state).tightening_tracker.spec_is_complete() ==> {
            &&& final(events)@.len() == old(events)@.len() + 2
            &&& final(events)@.last() == SimulatorEvent::BatchCompleted { total: r }
        },
        !final(state).tightening_tracker.spec_is_complete() ==> final(events)@.len() == old(events)@.len() + 1,
{
    let fsm = DeviceFSM::new().start_tightening(clone_params(params), 0);
    let fsm = fsm.complete(0, nanos);
    let outcome = fsm.result();

    proof {
        lemma_actual_bounded(params.target_torque_cnm, spec_variation1(nanos));
        lemma_actual_bounded(params.target_angle_ddeg, spec_variation2(nanos));
    }

    let info = state.tightening_tracker.add_tightening(outcome.ok);

    let result = build_tightening_result(
        state,
        &info,
        outcome.actual_torque_cnm,
        outcome.actual_angle_ddeg,
        outcome.ok,
        outcome.torque_ok,
        outcome.angle_ok,
        params,
    );

    let batch_completed = state.tightening_tracker.is_complete();
    let counter = info.counter;

    events.push(SimulatorEvent::TighteningCompleted { result });
    if batch_completed {
        events.push(SimulatorEvent::BatchCompleted { total: counter });
    }
    proof {
        assert(final(events)@.take(old(events)@.len() as int) =~= old(events)@);
    }
    counter
}

/// Whether the natural (un-overridden) outcome of a cycle with these
/// parameters and this nanosecond reading is OK.
pub open spec fn spec_natural_ok(params: TighteningParams, nanos: u64) -> bool {
    let torque = spec_actual(params.target_torque_cnm, spec_variation1(nanos));
    let angle = spec_actual(params.target_angle_ddeg, spec_variation2(nanos));
    &&& params.torque_min_cnm <= torque <= params.torque_max_cnm
    &&& params.angle_min_ddeg <= angle <= params.angle_max_ddeg
}

/// A copy of tightening parameters.
fn clone_params(params: &TighteningParams) -> (r: TighteningParams)
    ensures
        r == *params,
{
    TighteningParams {
        target_torque_cnm: params.target_torque_cnm,
        torque_min_cnm: params.torque_min_cnm,
        torque_max_cnm: params.torque_max_cnm,
        target_angle_ddeg: params.target_angle_ddeg,
        angle_min_ddeg: params.angle_min_ddeg,
        angle_max_ddeg: params.angle_max_ddeg,
        duration_ms: params.duration_ms,
    }
}

/// Snapshot the machine as evaluating the outcome of a cycle run on these
/// parameters with this nanosecond reading; nothing else changes.  The
/// surrounding loop publishes this snapshot before recording the cycle, so
/// readers can observe the evaluation step.
pub fn evaluate_cycle(state: &mut DeviceState, params: &TighteningParams, nanos: u64)
    requires
        params.wf(),
    ensures
        ({
            let torque = spec_actual(params.target_torque_cnm, spec_variation1(nanos));
            let angle = spec_actual(params.target_angle_ddeg, spec_variation2(nanos));
            let torque_ok = params.torque_min_cnm <= torque <= params.torque_max_cnm;
            let angle_ok = params.angle_min_ddeg <= angle <= params.angle_max_ddeg;
            *final(state) == (DeviceState {
                device_fsm_state: DeviceFSMState::Evaluating {
                    ok: torque_ok && angle_ok,
                    torque_ok,
                    angle_ok,
                    actual_torque_cnm: torque,
                    actual_angle_ddeg: angle,
                },
                ..*old(state)
            })
        }),
{
    let fsm = DeviceFSM::new().start_tightening(clone_params(params), 0);
    let fsm = fsm.complete(0, nanos);
    state.device_fsm_state = DeviceFSMState::evaluating(&fsm);
}

/// Finish one scheduler cycle after its tightening sleep and evaluation
/// snapshot: evaluate the outcome, override it by the failure draw, run
/// the single- or multi-spindle recording path with its broadcasts, report
/// progress (and batch completion when it happened), and return the
/// machine to idle.
pub fn finish_cycle(
    state: &mut DeviceState,
    params: &TighteningParams,
    nanos: u64,
    micros: u64,
    failure_rate_percent: u8,
    scheduler_running: bool,
    events: &mut Vec<SimulatorEvent>,
)
    requires
        params.wf(),
        old(state).tightening_tracker.spec_sequence() < u32::MAX - 1,
        old(state).tightening_tracker.spec_counter() < u32::MAX,
        old(state).tightening_tracker.spec_is_batch() ==> old(state).tightening_tracker.spec_batch()->Some_0.spec_sequence() < u32::MAX,
    ensures
        final(state).tightening_tracker.spec_sequence() == old(state).tightening_tracker.spec_sequence() + 1,
        final(state).tightening_tracker.spec_is_batch() == old(state).tightening_tracker.spec_is_batch(),
        final(state).device_fsm_state == DeviceFSMState::Idle,
        *final(state) == (DeviceState {
            tightening_tracker: final(state).tightening_tracker,
            device_fsm_state: DeviceFSMState::Idle,
            ..*old(state)
        }),
        final(events)@.len() > old(events)@.len(),
        final(events)@.take(old(events)@.len() as int) == old(events)@,
        old(state).multi_spindle_config.enabled ==> ({
            let n = old(events)@.len() as int;
            let count = old(state).multi_spindle_config.spindle_count;
            let sync = old(state).multi_spindle_config.sync_id;
            let rid = (old(state).tightening_tracker.spec_sequence() + 1) as u32;
            let ok = count == 0 || rid % 10 != 0;
            &&& final(events)@[n] matches SimulatorEvent::MultiSpindleStatusCompleted { status }
                && status.status == 1 && status.sync_id == sync && status.spindle_count == count
            &&& final(events)@[n + 1] matches SimulatorEvent::MultiSpindleResultCompleted { result }
                && result.result_id == rid && result.sync_id == sync && result.spindle_count
                == count && ((result.overall_status == 0) <==> ok)
            &&& final(events)@[n + 2] matches SimulatorEvent::MultiSpindleStatusCompleted { status }
                && status.status == 2 && status.sync_id == sync && status.spindle_count == count
            &&& final(events)@[n + 3] matches SimulatorEvent::AutoTighteningProgress {
                counter,
                target_size,
                running,
            } && counter == final(state).tightening_tracker.spec_counter() && target_size == final(state).tightening_tracker.spec_batch_size() && running == scheduler_running
            &&& final(state).tightening_tracker.spec_is_complete() ==> final(events)@.len() == n + 5
                && final(events)@.last() == (SimulatorEvent::BatchCompleted {
                total: final(state).tightening_tracker.spec_counter(),
            })
            &&& !final(state).tightening_tracker.spec_is_complete() ==> final(events)@.len() == n
                + 4
            &&& old(state).tightening_tracker.spec_is_batch() ==> final(state).tightening_tracker.spec_counter() == old(state).tightening_tracker.spec_counter() + (
            if ok && !old(state).tightening_tracker.spec_is_complete() {
                1int
            } else {
                0int
            })
        }),
        !old(state).multi_spindle_config.enabled ==> ({
            let n = old(events)@.len() as int;
            let ok = micros % 100 >= failure_rate_percent && spec_natural_ok(*params, nanos);
            &&& final(events)@[n] matches SimulatorEvent::TighteningCompleted { result }
                && result.tightening_status == ok && result.batch_counter == final(state).tightening_tracker.spec_counter() && result.tightening_id == Some(
                (old(state).tightening_tracker.spec_sequence() + 1) as u32,
            ) && result.torque_cnm == spec_actual(
                params.target_torque_cnm,
                spec_variation1(nanos),
            ) as int && result.angle_ddeg == spec_actual(
                params.target_angle_ddeg,
                spec_variation2(nanos),
            ) as int
            &&& final(events)@[n + 1] matches SimulatorEvent::AutoTighteningProgress {
                counter,
                target_size,
                running,
            } && counter == final(state).tightening_tracker.spec_counter() && target_size == final(state).tightening_tracker.spec_batch_size() && running == scheduler_running
            &&& final(state).tightening_tracker.spec_is_complete() ==> final(events)@.len() == n + 3
                && final(events)@.last() == (SimulatorEvent::BatchCompleted {
                total: final(state).tightening_tracker.spec_counter(),
            })
            &&& !final(state).tightening_tracker.spec_is_complete() ==> final(events)@.len() == n
                + 2
            &&& old(state).tightening_tracker.spec_is_batch() ==> final(state).tightening_tracker.spec_counter() == old(state).tightening_tracker.spec_counter() + (
            if ok && !old(state).tightening_tracker.spec_is_complete() {
                1int
            } else {
                0int
            })
        }),
{
    let fsm = DeviceFSM::new().start_tightening(clone_params(params), 0);
    let fsm = fsm.complete(0, nanos);
    let outcome_ok = fsm.result().ok;
    let outcome_torque = fsm.result().actual_torque_cnm;
    let outcome_angle = fsm.result().actual_angle_ddeg;
    let outcome_torque_ok = fsm.result().torque_ok;
    let outcome_angle_ok = fsm.result().angle_ok;

    proof {
        lemma_actual_bounded(params.target_torque_cnm, spec_variation1(nanos));
        lemma_actual_bounded(params.target_angle_ddeg, spec_variation2(nanos));
    }

    let final_ok = decide_final_ok(micros, failure_rate_percent, outcome_ok);

    if state.multi_spindle_config.enabled {
        let config = state.multi_spindle_config;
        let result_id = state.tightening_tracker.tightening_sequence() + 1;
        let pset_id = match state.current_pset_id {
            Some(id) => id,
            None => 1,
        };

        events.push(
            SimulatorEvent::MultiSpindleStatusCompleted {
                status: crate::multi_spindle::MultiSpindleStatus::running(
                    config.sync_id,
                    config.spindle_count,
                ),
            },
        );

        let multi_result = generate_multi_spindle_results(&config, result_id, pset_id);
        proof {
            crate::multi_spindle::lemma_generated_overall(
                config.spindle_count,
                result_id,
                multi_result.spindle_results@,
            );
        }
        let overall_ok = multi_result.is_ok();

        events.push(SimulatorEvent::MultiSpindleResultCompleted { result: multi_result });
        events.push(
            SimulatorEvent::MultiSpindleStatusCompleted {
                status: crate::multi_spindle::MultiSpindleStatus::completed(
                    config.sync_id,
                    config.spindle_count,
                ),
            },
        );

        let info = state.tightening_tracker.add_tightening(overall_ok);
        let batch_completed = state.tightening_tracker.is_complete();
        let target_size = state.tightening_tracker.batch_size();

        events.push(
            SimulatorEvent::AutoTighteningProgress {
                counter: info.counter,
                target_size,
                running: scheduler_running,
            },
        );
        if batch_completed {
            events.push(SimulatorEvent::BatchCompleted { total: info.counter });
        }
    } else {
        let info = state.tightening_tracker.add_tightening(final_ok);

        let result = build_tightening_result(
            state,
            &info,
            outcome_torque,
            outcome_angle,
            final_ok,
            outcome_torque_ok,
            outcome_angle_ok,
            params,
        );

        let batch_completed = state.tightening_tracker.is_complete();
        let target_size = state.tightening_tracker.batch_size();

        events.push(SimulatorEvent::TighteningCompleted { result });
        events.push(
            SimulatorEvent::AutoTighteningProgress {
                counter: info.counter,
                target_size,
                running: scheduler_running,
            },
        );
        if batch_completed {
            events.push(SimulatorEvent::BatchCompleted { total: info.counter });
        }
    }

    state.device_fsm_state = DeviceFSMState::idle();
    proof {
        assert(final(events)@.take(old(events)@.len() as int) =~= old(events)@);
    }
}

} // verus!
