//! The tightening cycle state machine: idle, tightening, evaluating, error.
//!
//! Transitions consume the old state and yield the new one.  Torque is
//! carried in hundredths of a newton-metre and angles in tenths of a
//! degree; time enters as plain millisecond and nanosecond readings, so the
//! simulated outcome is an exact function of its inputs.

use vstd::prelude::*;

verus! {

/// Cap on targets so that the variation arithmetic stays in range.
pub const MAX_TARGET: u32 = 100_000_000;

/// Parameters for a tightening operation.
#[derive(Debug, Clone, PartialEq, Eq, Structural)]
pub struct TighteningParams {
    /// Target torque in hundredths of a newton-metre.
    pub target_torque_cnm: u32,
    /// Minimum acceptable torque in hundredths of a newton-metre.
    pub torque_min_cnm: u32,
    /// Maximum acceptable torque in hundredths of a newton-metre.
    pub torque_max_cnm: u32,
    /// Target angle in tenths of a degree.
    pub target_angle_ddeg: u32,
    /// Minimum acceptable angle in tenths of a degree.
    pub angle_min_ddeg: u32,
    /// Maximum acceptable angle in tenths of a degree.
    pub angle_max_ddeg: u32,
    /// Duration of the tightening cycle in milliseconds.
    pub duration_ms: u64,
}

impl TighteningParams {
    /// Well-formed parameters: each target between its bounds, a positive
    /// duration, and targets small enough for the variation arithmetic.
    pub open spec fn wf(&self) -> bool {
        &&& self.torque_min_cnm <= self.target_torque_cnm <= self.torque_max_cnm
        &&& self.angle_min_ddeg <= self.target_angle_ddeg <= self.angle_max_ddeg
        &&& self.duration_ms >= 1
        &&& self.torque_max_cnm <= MAX_TARGET
        &&& self.angle_max_ddeg <= MAX_TARGET
        &&& self.target_torque_cnm <= MAX_TARGET
        &&& self.target_angle_ddeg <= MAX_TARGET
    }

    /// Default parameters for testing: torque 12.50 in 10.00 to 15.00
    /// newton-metres, angle 40.0 in 30.0 to 50.0 degrees, one and a half
    /// seconds.
    pub fn default_test() -> (r: Self)
        ensures
            r == (TighteningParams {
                target_torque_cnm: 1250u32,
                torque_min_cnm: 1000u32,
                torque_max_cnm: 1500u32,
                target_angle_ddeg: 400u32,
                angle_min_ddeg: 300u32,
                angle_max_ddeg: 500u32,
                duration_ms: 1500u64,
            }),
            r.wf(),
    {
        Self {
            target_torque_cnm: 1250,
            torque_min_cnm: 1000,
            torque_max_cnm: 1500,
            target_angle_ddeg: 400,
            angle_min_ddeg: 300,
            angle_max_ddeg: 500,
            duration_ms: 1500,
        }
    }
}

/// Outcome of a completed tightening cycle.
#[derive(Debug, Clone, PartialEq, Eq, Structural)]
pub struct TighteningOutcome {
    /// Actual torque achieved, in hundredths of a newton-metre.
    pub actual_torque_cnm: u32,
    /// Actual angle achieved, in tenths of a degree.
    pub actual_angle_ddeg: u32,
    /// How long the tightening took, in milliseconds.
    pub duration_ms: u64,
    /// Overall status: torque and angle both within limits.
    pub ok: bool,
    /// Torque within limits.
    pub torque_ok: bool,
    /// Angle within limits.
    pub angle_ok: bool,
}

/// Error codes for tightening operations.
#[derive(Debug, Clone, Copy, PartialEq, Eq, Structural)]
pub enum ErrorCode {
    /// Tool was disabled during the operation.
    ToolDisabled,
    /// Timeout waiting for completion.
    Timeout,
    /// Invalid parameter set.
    InvalidPset,
    /// General error.
    General,
}

/// Idle state: waiting for a tightening operation.
pub struct Idle;

/// Tightening state: operation in progress.
pub struct Tightening {
    /// When the tightening started, in milliseconds.
    pub start_ms: u64,
    /// Target parameters for this tightening.
    pub params: TighteningParams,
}

/// Evaluating state: tightening complete, result available.
pub struct Evaluating {
    /// The outcome of the tightening.
    pub result: TighteningOutcome,
}

/// Error state: a recoverable error occurred.
pub struct Error {
    /// Error classification.
    pub code: ErrorCode,
}

/// The device cycle state machine.
pub struct DeviceFSM<S> {
    state: S,
}

/// First pseudo-random variation drawn from a nanosecond reading: a value
/// in 0 to 999, standing for up to one tenth above the low anchor.
pub open spec fn spec_variation1(nanos: u64) -> u64 {
    nanos % 1000
}

/// Second pseudo-random variation drawn from the same reading.
pub open spec fn spec_variation2(nanos: u64) -> u64 {
    ((((nanos % 1000) * 7) % 1000)) as u64
}

/// The simulated actual value: the target scaled by ninety-five per cent
/// plus the variation (zero to ten per cent), in integer ten-thousandths.
pub open spec fn spec_actual(target: u32, variation: u64) -> u32 {
    ((target * (9500 + variation)) / 10000) as u32
}

impl<S> DeviceFSM<S> {
    /// The state payload of this machine.
    pub closed spec fn spec_state(&self) -> &S {
        &self.state
    }
}

impl DeviceFSM<Idle> {
    /// Create a new device in the idle state.
    pub fn new() -> Self {
        Self { state: Idle }
    }

    /// Start a tightening operation at the given clock reading.
    pub fn start_tightening(self, params: TighteningParams, now_ms: u64) -> (r: DeviceFSM<
        Tightening,
    >)
        ensures
            r.spec_state().start_ms == now_ms,
            r.spec_state().params == params,
    {
        DeviceFSM { state: Tightening { start_ms: now_ms, params } }
    }
}

impl DeviceFSM<Tightening> {
    /// Milliseconds elapsed since the start; a clock reading earlier than
    /// the start counts as zero.
    pub fn elapsed(&self, now_ms: u64) -> (r: u64)
        ensures
            r == if now_ms >= self.spec_state().start_ms {
                (now_ms - self.spec_state().start_ms) as u64
            } else {
                0u64
            },
    {
        if now_ms >= self.state.start_ms {
            now_ms - self.state.start_ms
        } else {
            0
        }
    }

    /// Whether the tightening duration has elapsed.
    pub fn is_complete(&self, now_ms: u64) -> (r: bool)
        ensures
            r == (self.spec_state().params.duration_ms <= (if now_ms >= self.spec_state().start_ms {
                (now_ms - self.spec_state().start_ms) as u64
            } else {
                0u64
            })),
    {
        self.elapsed(now_ms) >= self.state.params.duration_ms
    }

    /// Progress through the cycle in thousandths, clamped to one thousand.
    pub fn progress_permille(&self, now_ms: u64) -> (r: u32)
        requires
            self.spec_state().params.duration_ms >= 1,
        ensures
            r <= 1000,
            r == ({
                let elapsed: u64 = if now_ms >= self.spec_state().start_ms {
                    (now_ms - self.spec_state().start_ms) as u64
                } else {
                    0u64
                };
                if elapsed >= self.spec_state().params.duration_ms {
                    1000u32
                } else {
                    ((elapsed * 1000) / (self.spec_state().params.duration_ms as int)) as u32
                }
            }),
    {
        let elapsed = self.elapsed(now_ms);
        let duration = self.state.params.duration_ms;
        if elapsed >= duration {
            1000
        } else {
            proof {
                assert((elapsed as int * 1000) / (duration as int) < 1000) by (nonlinear_arith)
                    requires
                        elapsed < duration,
                        duration >= 1,
                ;
            }
            (((elapsed as u128) * 1000) / (duration as u128)) as u32
        }
    }

    /// The tightening parameters.
    pub fn params(&self) -> (r: &TighteningParams)
        ensures
            *r == self.spec_state().params,
    {
        &self.state.params
    }

    /// Complete the tightening and evaluate the outcome.
    ///
    /// The actual torque and angle are the targets scaled by ninety-five
    /// per cent plus a pseudo-random variation of up to ten per cent drawn
    /// from the elapsed nanoseconds; each status is an inclusive range
    /// test, and the overall status is their conjunction.
    pub fn complete(self, now_ms: u64, elapsed_nanos: u64) -> (r: DeviceFSM<Evaluating>)
        requires
            self.spec_state().params.target_torque_cnm <= MAX_TARGET,
            self.spec_state().params.target_angle_ddeg <= MAX_TARGET,
        ensures
            ({
                let params = self.spec_state().params;
                let outcome = r.spec_state().result;
                let torque = spec_actual(params.target_torque_cnm, spec_variation1(elapsed_nanos));
                let angle = spec_actual(params.target_angle_ddeg, spec_variation2(elapsed_nanos));
                &&& outcome.actual_torque_cnm == torque
                &&& outcome.actual_angle_ddeg == angle
                &&& outcome.duration_ms == (if now_ms >= self.spec_state().start_ms {
                    (now_ms - self.spec_state().start_ms) as u64
                } else {
                    0u64
                })
                &&& outcome.torque_ok == (params.torque_min_cnm <= torque <= params.torque_max_cnm)
                &&& outcome.angle_ok == (params.angle_min_ddeg <= angle <= params.angle_max_ddeg)
                &&& outcome.ok == (outcome.torque_ok && outcome.angle_ok)
            }),
    {
        let duration_ms = self.elapsed(now_ms);
        let params = &self.state.params;

        let seed = elapsed_nanos % 1000;
        let variation1 = seed;
        let variation2 = (seed * 7) % 1000;

        let actual_torque_cnm = scale_by_variation(params.target_torque_cnm, variation1);
        let actual_angle_ddeg = scale_by_variation(params.target_angle_ddeg, variation2);

        let torque_ok = actual_torque_cnm >= params.torque_min_cnm && actual_torque_cnm
            <= params.torque_max_cnm;
        let angle_ok = actual_angle_ddeg >= params.angle_min_ddeg && actual_angle_ddeg
            <= params.angle_max_ddeg;

        DeviceFSM {
            state: Evaluating {
                result: TighteningOutcome {
                    actual_torque_cnm,
                    actual_angle_ddeg,
                    duration_ms,
                    ok: torque_ok && angle_ok,
                    torque_ok,
                    angle_ok,
                },
            },
        }
    }

    /// Abort the tightening with an error.
    pub fn abort(self, code: ErrorCode) -> (r: DeviceFSM<Error>)
        ensures
            r.spec_state().code == code,
    {
        DeviceFSM { state: Error { code } }
    }
}

/// The target scaled by ninety-five per cent plus the given variation in
/// integer ten-thousandths.
fn scale_by_variation(target: u32, variation: u64) -> (r: u32)
    requires
        target <= MAX_TARGET,
        variation <= 999,
    ensures
        r == spec_actual(target, variation),
{
    proof {
        assert((target as u64) * (9500 + variation) <= (MAX_TARGET as u64) * 10499)
            by (nonlinear_arith)
            requires
                target <= MAX_TARGET,
                variation <= 999,
        ;
    }
    let scaled = (target as u64) * (9500 + variation);
    let result = scaled / 10000;
    proof {
        assert(result <= u32::MAX);
        assert(target * (9500 + variation) == (target as u64) * (9500 + variation))
            by (nonlinear_arith);
    }
    result as u32
}

impl DeviceFSM<Evaluating> {
    /// The tightening result.
    pub fn result(&self) -> (r: &TighteningOutcome)
        ensures
            *r == self.spec_state().result,
    {
        &self.state.result
    }

    /// Consume the result and return to the idle state.
    pub fn finish(self) -> DeviceFSM<Idle> {
        DeviceFSM::new()
    }
}

impl DeviceFSM<Error> {
    /// The error code.
    pub fn error_code(&self) -> (r: ErrorCode)
        ensures
            r == self.spec_state().code,
    {
        self.state.code
    }

    /// Clear the error and return to the idle state.
    pub fn clear_error(self) -> DeviceFSM<Idle> {
        DeviceFSM::new()
    }
}

/// A serializable snapshot of the machine, as stored in the device state.
#[derive(Debug, Clone, PartialEq, Eq, Structural)]
pub enum DeviceFSMState {
    /// Waiting for an operation.
    Idle,
    /// Operation in progress.
    Tightening {
        /// Progress through the cycle in thousandths.
        progress_permille: u32,
        /// Milliseconds elapsed since the start.
        elapsed_ms: u64,
        /// Target torque in hundredths of a newton-metre.
        target_torque_cnm: u32,
        /// Target angle in tenths of a degree.
        target_angle_ddeg: u32,
    },
    /// Operation finished, result available.
    Evaluating {
        /// Overall status.
        ok: bool,
        /// Torque within limits.
        torque_ok: bool,
        /// Angle within limits.
        angle_ok: bool,
        /// Actual torque in hundredths of a newton-metre.
        actual_torque_cnm: u32,
        /// Actual angle in tenths of a degree.
        actual_angle_ddeg: u32,
    },
    /// A recoverable error occurred.
    Error {
        /// Error classification.
        code: ErrorCode,
    },
}

impl DeviceFSMState {
    /// The idle snapshot.
    pub fn idle() -> (r: Self)
        ensures
            r == DeviceFSMState::Idle,
    {
        DeviceFSMState::Idle
    }

    /// Snapshot of a machine in the tightening state at a clock reading.
    pub fn tightening(fsm: &DeviceFSM<Tightening>, now_ms: u64) -> (r: Self)
        requires
            fsm.spec_state().params.duration_ms >= 1,
        ensures
            r matches DeviceFSMState::Tightening {
                progress_permille,
                elapsed_ms,
                target_torque_cnm,
                target_angle_ddeg,
            } && {
                &&& progress_permille <= 1000
                &&& progress_permille == ({
                    let elapsed: u64 = if now_ms >= fsm.spec_state().start_ms {
                        (now_ms - fsm.spec_state().start_ms) as u64
                    } else {
                        0u64
                    };
                    if elapsed >= fsm.spec_state().params.duration_ms {
                        1000u32
                    } else {
                        ((elapsed * 1000) / (fsm.spec_state().params.duration_ms as int)) as u32
                    }
                })
                &&& elapsed_ms == (if now_ms >= fsm.spec_state().start_ms {
                    (now_ms - fsm.spec_state().start_ms) as u64
                } else {
                    0u64
                })
                &&& target_torque_cnm == fsm.spec_state().params.target_torque_cnm
                &&& target_angle_ddeg == fsm.spec_state().params.target_angle_ddeg
            },
    {
        DeviceFSMState::Tightening {
            progress_permille: fsm.progress_permille(now_ms),
            elapsed_ms: fsm.elapsed(now_ms),
            target_torque_cnm: fsm.params().target_torque_cnm,
            target_angle_ddeg: fsm.params().target_angle_ddeg,
        }
    }

    /// Snapshot of a machine in the evaluating state.
    pub fn evaluating(fsm: &DeviceFSM<Evaluating>) -> (r: Self)
        ensures
            r == (DeviceFSMState::Evaluating {
                ok: fsm.spec_state().result.ok,
                torque_ok: fsm.spec_state().result.torque_ok,
                angle_ok: fsm.spec_state().result.angle_ok,
                actual_torque_cnm: fsm.spec_state().result.actual_torque_cnm,
                actual_angle_ddeg: fsm.spec_state().result.actual_angle_ddeg,
            }),
    {
        let result = fsm.result();
        DeviceFSMState::Evaluating {
            ok: result.ok,
            torque_ok: result.torque_ok,
            angle_ok: result.angle_ok,
            actual_torque_cnm: result.actual_torque_cnm,
            actual_angle_ddeg: result.actual_angle_ddeg,
        }
    }

    /// Snapshot of a machine in the error state.
    pub fn error(fsm: &DeviceFSM<Error>) -> (r: Self)
        ensures
            r == (DeviceFSMState::Error { code: fsm.spec_state().code }),
    {
        DeviceFSMState::Error { code: fsm.error_code() }
    }
}

} // verus!
