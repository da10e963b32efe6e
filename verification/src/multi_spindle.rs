//! Multi-spindle configuration, per-spindle results and their aggregate.
//!
//! Torque values are carried in hundredths of a newton-metre and angles in
//! tenths of a degree, as they travel on the wire.

use vstd::prelude::*;

use crate::clock::now_stamp_spaced;

verus! {

/// Smallest spindle count of a valid multi-spindle configuration.
pub const MIN_SPINDLE_COUNT: u8 = 2;

/// Largest spindle count of a valid multi-spindle configuration.
pub const MAX_SPINDLE_COUNT: u8 = 16;

/// Configuration for multi-spindle operation.
#[derive(Debug, Clone, Copy, PartialEq, Eq, Structural)]
pub struct MultiSpindleConfig {
    /// Whether multi-spindle mode is enabled.
    pub enabled: bool,
    /// Number of spindles in the multi-spindle system.
    pub spindle_count: u8,
    /// Sync tightening id grouping spindles that tighten simultaneously.
    pub sync_id: u32,
}

impl MultiSpindleConfig {
    /// The disabled single-spindle configuration.
    pub open spec fn spec_default() -> Self {
        MultiSpindleConfig { enabled: false, spindle_count: 1, sync_id: 0 }
    }

    /// A configuration is valid when disabled, or enabled with a spindle
    /// count between two and sixteen.
    pub open spec fn spec_is_valid(&self) -> bool {
        self.enabled ==> MIN_SPINDLE_COUNT <= self.spindle_count <= MAX_SPINDLE_COUNT
    }

    /// Create an enabled configuration with the given count and sync id.
    pub fn new(spindle_count: u8, sync_id: u32) -> (r: Self)
        ensures
            r == (MultiSpindleConfig { enabled: true, spindle_count, sync_id }),
    {
        Self { enabled: true, spindle_count, sync_id }
    }

    /// The disabled single-spindle configuration.
    pub fn disable() -> (r: Self)
        ensures
            r == MultiSpindleConfig::spec_default(),
    {
        Self { enabled: false, spindle_count: 1, sync_id: 0 }
    }

    /// Validate the configuration.
    pub fn is_valid(&self) -> (r: bool)
        ensures
            r == self.spec_is_valid(),
    {
        if !self.enabled {
            return true;
        }
        self.spindle_count >= MIN_SPINDLE_COUNT && self.spindle_count <= MAX_SPINDLE_COUNT
    }
}

impl Default for MultiSpindleConfig {
    /// The disabled single-spindle configuration.
    fn default() -> (r: Self)
        ensures
            r == MultiSpindleConfig::spec_default(),
    {
        Self { enabled: false, spindle_count: 1, sync_id: 0 }
    }
}

/// Individual spindle result within a multi-spindle operation.
#[derive(Debug, Clone, Copy, PartialEq, Eq, Structural)]
pub struct SpindleResult {
    /// Spindle number (1-based).
    pub spindle_id: u8,
    /// Channel id (the spindle number, for this controller).
    pub channel_id: u8,
    /// Final torque in hundredths of a newton-metre.
    pub torque: i32,
    /// Final angle in tenths of a degree.
    pub angle: i32,
    /// Torque status: 0 OK, 1 NOK.
    pub torque_status: u8,
    /// Angle status: 0 OK, 1 NOK.
    pub angle_status: u8,
}

impl SpindleResult {
    /// A spindle is OK when both its torque and its angle are OK.
    pub open spec fn spec_is_ok(&self) -> bool {
        self.torque_status == 0 && self.angle_status == 0
    }

    /// Create a successful spindle result.
    pub fn ok(spindle_id: u8, torque: i32, angle: i32) -> (r: Self)
        ensures
            r == (SpindleResult {
                spindle_id,
                channel_id: spindle_id,
                torque,
                angle,
                torque_status: 0u8,
                angle_status: 0u8,
            }),
    {
        Self { spindle_id, channel_id: spindle_id, torque, angle, torque_status: 0, angle_status: 0 }
    }

    /// Create a failed spindle result with the chosen failure modes.
    pub fn nok(spindle_id: u8, torque: i32, angle: i32, torque_failed: bool, angle_failed: bool) -> (r:
        Self)
        ensures
            r.spindle_id == spindle_id,
            r.channel_id == spindle_id,
            r.torque == torque,
            r.angle == angle,
            r.torque_status == (if torque_failed { 1u8 } else { 0u8 }),
            r.angle_status == (if angle_failed { 1u8 } else { 0u8 }),
    {
        Self {
            spindle_id,
            channel_id: spindle_id,
            torque,
            angle,
            torque_status: if torque_failed { 1 } else { 0 },
            angle_status: if angle_failed { 1 } else { 0 },
        }
    }

    /// Check if this spindle result is OK.
    pub fn is_ok(&self) -> (r: bool)
        ensures
            r == self.spec_is_ok(),
    {
        self.torque_status == 0 && self.angle_status == 0
    }
}

/// Whether every spindle of a sequence is OK.
pub open spec fn spec_all_ok(s: Seq<SpindleResult>) -> bool {
    forall|i: int| 0 <= i < s.len() ==> (#[trigger] s[i]).spec_is_ok()
}

/// The aggregate status over a sequence of spindles: 0 when all are OK,
/// 1 otherwise.
pub open spec fn spec_overall_status(s: Seq<SpindleResult>) -> u8 {
    if spec_all_ok(s) {
        0
    } else {
        1
    }
}

/// Number of OK spindles in a sequence.
pub open spec fn spec_ok_count(s: Seq<SpindleResult>) -> nat
    decreases s.len(),
{
    if s.len() == 0 {
        0
    } else {
        spec_ok_count(s.drop_last()) + if s.last().spec_is_ok() {
            1nat
        } else {
            0nat
        }
    }
}

/// Aggregated multi-spindle tightening result.
#[derive(Debug, Clone)]
pub struct MultiSpindleResult {
    /// Unique identifier for this multi-spindle operation.
    pub result_id: u32,
    /// Sync tightening id that groups these spindles.
    pub sync_id: u32,
    /// Timestamp of the tightening operation.
    pub timestamp: String,
    /// Overall status: 0 OK, 1 NOK; 0 exactly when every spindle is OK.
    pub overall_status: u8,
    /// Number of spindles involved.
    pub spindle_count: u8,
    /// Individual results for each spindle.
    pub spindle_results: Vec<SpindleResult>,
}

impl MultiSpindleResult {
    /// Create a new multi-spindle result.  The overall status is OK exactly
    /// when every spindle is OK; the timestamp is read from the clock.
    pub fn new(result_id: u32, sync_id: u32, spindle_results: Vec<SpindleResult>) -> (r: Self)
        requires
            spindle_results@.len() <= u8::MAX,
        ensures
            r.result_id == result_id,
            r.sync_id == sync_id,
            r.spindle_count == spindle_results@.len(),
            r.spindle_results@ == spindle_results@,
            r.overall_status == spec_overall_status(spindle_results@),
    {
        let spindle_count = spindle_results.len() as u8;
        let mut all_ok = true;
        let mut i: usize = 0;
        while i < spindle_results.len()
            invariant
                0 <= i <= spindle_results@.len(),
                all_ok == spec_all_ok(spindle_results@.take(i as int)),
            decreases spindle_results@.len() - i,
        {
            if !spindle_results[i].is_ok() {
                all_ok = false;
            }
            proof {
                let t = spindle_results@.take(i + 1);
                assert(t.drop_last() =~= spindle_results@.take(i as int));
                assert(t.last() == spindle_results@[i as int]);
                lemma_all_ok_step(t);
            }
            i = i + 1;
        }
        proof {
            assert(spindle_results@.take(i as int) =~= spindle_results@);
        }
        let overall_status: u8 = if all_ok {
            0
        } else {
            1
        };

        Self {
            result_id,
            sync_id,
            timestamp: now_stamp_spaced(),
            overall_status,
            spindle_count,
            spindle_results,
        }
    }

    /// Check if the overall result is OK.
    pub fn is_ok(&self) -> (r: bool)
        ensures
            r == (self.overall_status == 0),
    {
        self.overall_status == 0
    }

    /// Count of OK spindles.
    pub fn ok_count(&self) -> (r: usize)
        ensures
            r == spec_ok_count(self.spindle_results@),
    {
        let mut count: usize = 0;
        let mut i: usize = 0;
        proof {
            lemma_ok_count_bounded(self.spindle_results@);
        }
        while i < self.spindle_results.len()
            invariant
                0 <= i <= self.spindle_results@.len(),
                count == spec_ok_count(self.spindle_results@.take(i as int)),
                count <= i,
            decreases self.spindle_results@.len() - i,
        {
            proof {
                assert(self.spindle_results@.take(i + 1).drop_last() =~= self.spindle_results@.take(
                    i as int,
                ));
            }
            if self.spindle_results[i].is_ok() {
                count = count + 1;
            }
            i = i + 1;
        }
        proof {
            assert(self.spindle_results@.take(i as int) =~= self.spindle_results@);
        }
        count
    }

    /// Count of NOK spindles.
    pub fn nok_count(&self) -> (r: usize)
        ensures
            r == self.spindle_results@.len() - spec_ok_count(self.spindle_results@),
    {
        proof {
            lemma_ok_count_bounded(self.spindle_results@);
        }
        self.spindle_results.len() - self.ok_count()
    }
}

/// A non-empty sequence is all OK exactly when its front is all OK and its
/// last element is OK.
proof fn lemma_all_ok_step(s: Seq<SpindleResult>)
    requires
        s.len() > 0,
    ensures
        spec_all_ok(s) <==> (spec_all_ok(s.drop_last()) && s.last().spec_is_ok()),
{
    if spec_all_ok(s.drop_last()) && s.last().spec_is_ok() {
        assert forall|i: int| 0 <= i < s.len() implies (#[trigger] s[i]).spec_is_ok() by {
            if i < s.len() - 1 {
                assert(s.drop_last()[i] == s[i]);
            }
        }
    } else {
        if spec_all_ok(s) {
            assert forall|i: int| 0 <= i < s.drop_last().len() implies (
            #[trigger] s.drop_last()[i]).spec_is_ok() by {
                assert(s.drop_last()[i] == s[i]);
            }
        }
    }
}

/// The OK count never exceeds the number of spindles.
pub proof fn lemma_ok_count_bounded(s: Seq<SpindleResult>)
    ensures
        spec_ok_count(s) <= s.len(),
    decreases s.len(),
{
    if s.len() > 0 {
        lemma_ok_count_bounded(s.drop_last());
    }
}

/// The aggregate status is OK exactly when every spindle reports both its
/// torque and its angle OK.
pub proof fn lemma_overall_status_iff_all_ok(s: Seq<SpindleResult>)
    ensures
        (spec_overall_status(s) == 0) <==> (forall|i: int|
            0 <= i < s.len() ==> (#[trigger] s[i]).torque_status == 0 && s[i].angle_status == 0),
{
}

/// Lightweight multi-spindle status for status broadcasts.
#[derive(Debug, Clone)]
pub struct MultiSpindleStatus {
    /// Sync tightening id.
    pub sync_id: u32,
    /// Status: 0 waiting, 1 running, 2 completed.
    pub status: u8,
    /// Number of spindles configured.
    pub spindle_count: u8,
    /// Timestamp when the status changed.
    pub timestamp: String,
}

impl MultiSpindleStatus {
    /// Create a status in the waiting state, stamped from the clock.
    pub fn waiting(sync_id: u32, spindle_count: u8) -> (r: Self)
        ensures
            r.sync_id == sync_id,
            r.status == 0,
            r.spindle_count == spindle_count,
    {
        Self { sync_id, status: 0, spindle_count, timestamp: now_stamp_spaced() }
    }

    /// Create a status in the running state, stamped from the clock.
    pub fn running(sync_id: u32, spindle_count: u8) -> (r: Self)
        ensures
            r.sync_id == sync_id,
            r.status == 1,
            r.spindle_count == spindle_count,
    {
        Self { sync_id, status: 1, spindle_count, timestamp: now_stamp_spaced() }
    }

    /// Create a status in the completed state, stamped from the clock.
    pub fn completed(sync_id: u32, spindle_count: u8) -> (r: Self)
        ensures
            r.sync_id == sync_id,
            r.status == 2,
            r.spindle_count == spindle_count,
    {
        Self { sync_id, status: 2, spindle_count, timestamp: now_stamp_spaced() }
    }
}

/// The spindle that `generate_multi_spindle_results` produces at position
/// `i` (zero-based) for the given count and result id: torque and angle
/// grow with the position, and the last spindle is NOK (torque low by five
/// newton-metres) exactly when the result id is a multiple of ten.
pub open spec fn spec_generated_spindle(count: u8, result_id: u32, i: int) -> SpindleResult {
    let torque = 5000 + 50 * i;
    let angle = 1800 + 10 * i;
    if i == count - 1 && result_id % 10 == 0 {
        SpindleResult {
            spindle_id: (i + 1) as u8,
            channel_id: (i + 1) as u8,
            torque: (torque - 500) as i32,
            angle: angle as i32,
            torque_status: 1,
            angle_status: 0,
        }
    } else {
        SpindleResult {
            spindle_id: (i + 1) as u8,
            channel_id: (i + 1) as u8,
            torque: torque as i32,
            angle: angle as i32,
            torque_status: 0,
            angle_status: 0,
        }
    }
}

/// The generated spindles are all OK exactly when there are none or the
/// result id is no multiple of ten: only the last spindle can fail, and it
/// fails exactly on multiples of ten.
pub proof fn lemma_generated_overall(count: u8, result_id: u32, s: Seq<SpindleResult>)
    requires
        s.len() == count,
        forall|i: int| 0 <= i < count ==> s[i] == spec_generated_spindle(count, result_id, i),
    ensures
        spec_all_ok(s) <==> (count == 0 || result_id % 10 != 0),
{
    if count == 0 {
    } else if result_id % 10 == 0 {
        assert(s[count - 1] == spec_generated_spindle(count, result_id, count - 1));
        assert(!s[count - 1].spec_is_ok());
    } else {
        assert forall|i: int| 0 <= i < s.len() implies (#[trigger] s[i]).spec_is_ok() by {
            assert(s[i] == spec_generated_spindle(count, result_id, i));
        }
    }
}

/// Generate simulated multi-spindle tightening results.
///
/// Each spindle's torque and angle vary slightly with its position.  The
/// last spindle fails on torque exactly when the result id is a multiple of
/// ten; every other spindle is OK.
pub fn generate_multi_spindle_results(
    config: &MultiSpindleConfig,
    result_id: u32,
    pset_id: u32,
) -> (r: MultiSpindleResult)
    ensures
        r.result_id == result_id,
        r.sync_id == config.sync_id,
        r.spindle_count == config.spindle_count,
        r.spindle_results@.len() == config.spindle_count,
        forall|i: int|
            0 <= i < config.spindle_count ==> r.spindle_results@[i] == spec_generated_spindle(
                config.spindle_count,
                result_id,
                i,
            ),
        r.overall_status == spec_overall_status(r.spindle_results@),
{
    let _ = pset_id;
    let mut spindle_results: Vec<SpindleResult> = Vec::new();

    let mut spindle_id: u32 = 1;
    while spindle_id <= config.spindle_count as u32
        invariant
            1 <= spindle_id <= config.spindle_count as int + 1,
            spindle_results@.len() == spindle_id - 1,
            forall|i: int|
                0 <= i < spindle_id - 1 ==> spindle_results@[i] == spec_generated_spindle(
                    config.spindle_count,
                    result_id,
                    i,
                ),
        decreases config.spindle_count as int + 1 - spindle_id,
    {
        let variation = (spindle_id as i32 - 1) * 5;
        let torque = 5000 + variation * 10;
        let angle = 1800 + variation * 2;

        let is_ok = spindle_id != config.spindle_count as u32 || result_id % 10 != 0;

        let result = if is_ok {
            SpindleResult::ok(spindle_id as u8, torque, angle)
        } else {
            SpindleResult::nok(spindle_id as u8, torque - 500, angle, true, false)
        };

        spindle_results.push(result);
        spindle_id = spindle_id + 1;
    }

    MultiSpindleResult::new(result_id, config.sync_id, spindle_results)
}

} // verus!
