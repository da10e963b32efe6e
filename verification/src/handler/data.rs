//! Typed payloads for the MID-specific responses and broadcasts, each with
//! its exact wire serialization.

use vstd::prelude::*;

use crate::clock::now_stamp_coloned;
use crate::multi_spindle::{MultiSpindleResult, MultiSpindleStatus};
use crate::protocol::digits::spec_zero_pad;
use crate::protocol::field::{
    extend_bytes, spec_fit_width, spec_param_int, spec_param_str, spec_param_uint,
    spec_signed_decimal, spec_str_bytes, Field,
};
use crate::protocol::response_data::ResponseData;
use vstd::string::StringSliceAdditionalSpecFns;

verus! {

/// Command accepted: the body is the accepted MID as four digits.
pub struct CommandAccepted {
    /// The MID whose request is being acknowledged.
    pub accepted_mid: u32,
}

impl CommandAccepted {
    /// Acknowledge with MID zero.
    pub fn new() -> (r: Self)
        ensures
            r.accepted_mid == 0,
    {
        Self { accepted_mid: 0 }
    }

    /// Acknowledge the given MID.
    pub fn with_mid(mid: u32) -> (r: Self)
        ensures
            r.accepted_mid == mid,
    {
        Self { accepted_mid: mid }
    }
}

impl ResponseData for CommandAccepted {
    open spec fn spec_serialized(&self) -> Seq<u8> {
        spec_zero_pad(self.accepted_mid as nat, 4)
    }

    fn serialize(&self) -> (r: Vec<u8>) {
        crate::protocol::digits::format_uint(self.accepted_mid as u64, 4)
    }
}

/// Error codes of the negative acknowledge.
#[derive(Debug, Clone, Copy, PartialEq, Eq, Structural)]
pub enum ErrorCode {
    /// MID revision not supported.
    MidRevisionUnsupported,
    /// Controller not ready.
    ControllerNotReady,
    /// Client already connected.
    ClientAlreadyConnected,
    /// Invalid data.
    InvalidData,
    /// Parameter set not found.
    ParameterSetNotFound,
    /// Job not found.
    JobNotFound,
    /// Vehicle id input source not granted.
    VehicleIdNotGranted,
    /// Subscription already exists.
    SubscriptionAlreadyExists,
    /// Subscription does not exist.
    SubscriptionDoesNotExist,
    /// Generic error.
    GenericError,
}

impl ErrorCode {
    /// The two-digit wire value of this code.
    pub open spec fn spec_value(&self) -> u8 {
        match self {
            ErrorCode::MidRevisionUnsupported => 1,
            ErrorCode::ControllerNotReady => 2,
            ErrorCode::ClientAlreadyConnected => 3,
            ErrorCode::InvalidData => 4,
            ErrorCode::ParameterSetNotFound => 5,
            ErrorCode::JobNotFound => 6,
            ErrorCode::VehicleIdNotGranted => 7,
            ErrorCode::SubscriptionAlreadyExists => 8,
            ErrorCode::SubscriptionDoesNotExist => 9,
            ErrorCode::GenericError => 99,
        }
    }

    /// The wire value of this code.
    pub fn value(&self) -> (r: u8)
        ensures
            r == self.spec_value(),
    {
        match self {
            ErrorCode::MidRevisionUnsupported => 1,
            ErrorCode::ControllerNotReady => 2,
            ErrorCode::ClientAlreadyConnected => 3,
            ErrorCode::InvalidData => 4,
            ErrorCode::ParameterSetNotFound => 5,
            ErrorCode::JobNotFound => 6,
            ErrorCode::VehicleIdNotGranted => 7,
            ErrorCode::SubscriptionAlreadyExists => 8,
            ErrorCode::SubscriptionDoesNotExist => 9,
            ErrorCode::GenericError => 99,
        }
    }
}

/// Negative acknowledge: sent when a request fails.
#[derive(Debug, Clone)]
pub struct ErrorResponse {
    /// The MID that caused the error.
    pub failed_mid: u16,
    /// Error code.
    pub error_code: ErrorCode,
}

impl ErrorResponse {
    /// An error response with the given code.
    pub fn new(failed_mid: u16, error_code: ErrorCode) -> (r: Self)
        ensures
            r.failed_mid == failed_mid,
            r.error_code == error_code,
    {
        Self { failed_mid, error_code }
    }

    /// MID revision unsupported.
    pub fn revision_unsupported(failed_mid: u16) -> (r: Self)
        ensures
            r.failed_mid == failed_mid,
            r.error_code == ErrorCode::MidRevisionUnsupported,
    {
        Self::new(failed_mid, ErrorCode::MidRevisionUnsupported)
    }

    /// Client already connected.
    pub fn already_connected(failed_mid: u16) -> (r: Self)
        ensures
            r.failed_mid == failed_mid,
            r.error_code == ErrorCode::ClientAlreadyConnected,
    {
        Self::new(failed_mid, ErrorCode::ClientAlreadyConnected)
    }

    /// Invalid data.
    pub fn invalid_data(failed_mid: u16) -> (r: Self)
        ensures
            r.failed_mid == failed_mid,
            r.error_code == ErrorCode::InvalidData,
    {
        Self::new(failed_mid, ErrorCode::InvalidData)
    }

    /// Generic error.
    pub fn generic(failed_mid: u16) -> (r: Self)
        ensures
            r.failed_mid == failed_mid,
            r.error_code == ErrorCode::GenericError,
    {
        Self::new(failed_mid, ErrorCode::GenericError)
    }

    /// The wire value of the error code.
    fn value_of_code(&self) -> (r: u8)
        ensures
            r == self.error_code.spec_value(),
    {
        self.error_code.value()
    }
}

impl ResponseData for ErrorResponse {
    /// Four digits of failed MID, two digits of error code.
    open spec fn spec_serialized(&self) -> Seq<u8> {
        spec_zero_pad(self.failed_mid as nat, 4) + spec_zero_pad(
            self.error_code.spec_value() as nat,
            2,
        )
    }

    fn serialize(&self) -> (r: Vec<u8>) {
        let mut r = crate::protocol::digits::format_uint(self.failed_mid as u64, 4);
        let code = crate::protocol::digits::format_uint(self.value_of_code() as u64, 2);
        extend_bytes(&mut r, code.as_slice());
        r
    }
}

/// The body of a negative acknowledge is always six bytes: a four-digit
/// MID and a two-digit code.
pub proof fn lemma_error_response_body_len(e: ErrorResponse)
    requires
        e.failed_mid <= 9999,
    ensures
        e.spec_serialized().len() == 6,
{
    assert(crate::protocol::digits::pow10(4) == 10000) by {
        reveal_with_fuel(crate::protocol::digits::pow10, 5);
    }
    assert(crate::protocol::digits::pow10(2) == 100) by {
        reveal_with_fuel(crate::protocol::digits::pow10, 3);
    }
    crate::protocol::digits::lemma_zero_pad_width(e.failed_mid as nat, 4);
    crate::protocol::digits::lemma_zero_pad_width(e.error_code.spec_value() as nat, 2);
}

/// Communication start acknowledge.
#[derive(Debug, Clone)]
pub struct CommunicationStartAck {
    /// Cell id (parameter 01).
    pub cell_id: u32,
    /// Channel id (parameter 02).
    pub channel_id: u32,
    /// Controller name (parameter 03).
    pub controller_name: String,
    /// Supplier code (parameter 04), optional.
    pub supplier_code: Option<String>,
}

impl CommunicationStartAck {
    /// Default identity values.
    pub fn new() -> (r: Self)
        ensures
            r.cell_id == 1,
            r.channel_id == 1,
            r.controller_name@ == "Simulator"@,
            r.supplier_code matches Some(code) && code@ == "SIM"@,
    {
        Self {
            cell_id: 1,
            channel_id: 1,
            controller_name: "Simulator".to_owned(),
            supplier_code: Some("SIM".to_owned()),
        }
    }

    /// Custom identity values.
    pub fn with_values(
        cell_id: u32,
        channel_id: u32,
        controller_name: String,
        supplier_code: Option<String>,
    ) -> (r: Self)
        ensures
            r.cell_id == cell_id,
            r.channel_id == channel_id,
            r.controller_name == controller_name,
            r.supplier_code == supplier_code,
    {
        Self { cell_id, channel_id, controller_name, supplier_code }
    }
}

impl ResponseData for CommunicationStartAck {
    /// Cell id (four digits, parameter 01), channel id (two digits,
    /// parameter 02), controller name (twenty-five bytes, parameter 03),
    /// and the supplier code when present (three bytes, parameter 04).
    open spec fn spec_serialized(&self) -> Seq<u8> {
        spec_param_uint(1, self.cell_id as nat, 4) + spec_param_uint(2, self.channel_id as nat, 2)
            + spec_param_str(3, spec_str_bytes(self.controller_name@), 25) + match self
            .supplier_code {
            Some(code) => spec_param_str(4, spec_str_bytes(code@), 3),
            None => Seq::empty(),
        }
    }

    fn serialize(&self) -> (r: Vec<u8>) {
        let mut r: Vec<u8> = Vec::new();

        let f = Field::from_uint(Some(1), self.cell_id, 4);
        let b = f.serialize();
        extend_bytes(&mut r, b.as_slice());

        let f = Field::from_uint(Some(2), self.channel_id, 2);
        let b = f.serialize();
        extend_bytes(&mut r, b.as_slice());

        let f = Field::from_str(Some(3), self.controller_name.as_str(), 25);
        let b = f.serialize();
        extend_bytes(&mut r, b.as_slice());

        match &self.supplier_code {
            Some(code) => {
                let f = Field::from_str(Some(4), code.as_str(), 3);
                let b = f.serialize();
                extend_bytes(&mut r, b.as_slice());
            },
            None => {},
        }
        r
    }
}

/// Parameter set selected notification: the body is the three-digit id.
#[derive(Debug, Clone)]
pub struct PsetSelected {
    /// Parameter set id that was selected.
    pub pset_id: u32,
}

impl PsetSelected {
    /// Notification for the given id.
    pub fn new(pset_id: u32) -> (r: Self)
        ensures
            r.pset_id == pset_id,
    {
        Self { pset_id }
    }
}

impl ResponseData for PsetSelected {
    open spec fn spec_serialized(&self) -> Seq<u8> {
        spec_zero_pad(self.pset_id as nat, 3)
    }

    fn serialize(&self) -> (r: Vec<u8>) {
        crate::protocol::digits::format_uint(self.pset_id as u64, 3)
    }
}

/// Vehicle id broadcast: the body is the vehicle id in twenty-five bytes.
#[derive(Debug, Clone)]
pub struct VehicleIdBroadcast {
    /// Vehicle id.
    pub vin_number: String,
}

impl VehicleIdBroadcast {
    /// Broadcast for the given vehicle id.
    pub fn new(vin: String) -> (r: Self)
        ensures
            r.vin_number == vin,
    {
        Self { vin_number: vin }
    }
}

impl ResponseData for VehicleIdBroadcast {
    /// The vehicle id, space-padded to twenty-five bytes, truncated when
    /// longer.
    open spec fn spec_serialized(&self) -> Seq<u8> {
        spec_fit_width(spec_str_bytes(self.vin_number@), 25)
    }

    fn serialize(&self) -> (r: Vec<u8>) {
        crate::protocol::field::fit_width(self.vin_number.as_str().as_bytes(), 25)
    }
}

/// Multi-spindle status broadcast.
pub struct MultiSpindleStatusBroadcast {
    /// The status to broadcast.
    pub status: MultiSpindleStatus,
}

impl MultiSpindleStatusBroadcast {
    /// Broadcast the given status.
    pub fn new(status: MultiSpindleStatus) -> (r: Self)
        ensures
            r.status == status,
    {
        Self { status }
    }

    /// Broadcast built from raw values, stamped from the clock.
    pub fn from_sync_id(sync_id: u32, spindle_count: u8, status_code: u8) -> (r: Self)
        ensures
            r.status.sync_id == sync_id,
            r.status.status == status_code,
            r.status.spindle_count == spindle_count,
    {
        Self {
            status: MultiSpindleStatus {
                sync_id,
                status: status_code,
                spindle_count,
                timestamp: crate::clock::now_stamp_spaced(),
            },
        }
    }
}

impl ResponseData for MultiSpindleStatusBroadcast {
    /// Sync id (four digits), status (one digit), spindle count (two
    /// digits), timestamp (nineteen bytes).
    open spec fn spec_serialized(&self) -> Seq<u8> {
        spec_zero_pad(self.status.sync_id as nat, 4) + spec_zero_pad(self.status.status as nat, 1)
            + spec_zero_pad(self.status.spindle_count as nat, 2) + spec_fit_width(
            spec_str_bytes(self.status.timestamp@),
            19,
        )
    }

    fn serialize(&self) -> (r: Vec<u8>) {
        let mut r = crate::protocol::digits::format_uint(self.status.sync_id as u64, 4);
        let status = crate::protocol::digits::format_uint(self.status.status as u64, 1);
        extend_bytes(&mut r, status.as_slice());
        let count = crate::protocol::digits::format_uint(self.status.spindle_count as u64, 2);
        extend_bytes(&mut r, count.as_slice());
        let stamp = crate::protocol::field::fit_width(self.status.timestamp.as_str().as_bytes(), 19);
        extend_bytes(&mut r, stamp.as_slice());
        r
    }
}

/// Division by ten truncating toward zero, as a specification.
pub open spec fn spec_div10_trunc(x: int) -> int {
    if x >= 0 {
        x / 10
    } else {
        -((-x) / 10)
    }
}

/// Division by ten truncating toward zero.
fn div10_trunc(x: i32) -> (r: i32)
    ensures
        r == spec_div10_trunc(x as int),
{
    if x >= 0 {
        ((x as u64) / 10) as i32
    } else {
        let magnitude = ((-(x as i64)) as u64) / 10;
        (-(magnitude as i64)) as i32
    }
}

/// The eighteen-byte per-spindle block of the multi-spindle result
/// broadcast: spindle number, channel, overall flag (one exactly when the
/// spindle is OK), torque status, torque, angle status, angle.
pub open spec fn spec_spindle_block(s: crate::multi_spindle::SpindleResult) -> Seq<u8> {
    spec_zero_pad(s.spindle_id as nat, 2) + spec_zero_pad(s.channel_id as nat, 2) + spec_zero_pad(
        if s.spec_is_ok() {
            1nat
        } else {
            0nat
        },
        1,
    ) + spec_zero_pad(s.torque_status as nat, 1) + spec_signed_decimal(s.torque as int, 6)
        + spec_zero_pad(s.angle_status as nat, 1) + spec_signed_decimal(s.angle as int, 5)
}

/// The concatenation of the per-spindle blocks, in order.
pub open spec fn spec_spindle_blocks(s: Seq<crate::multi_spindle::SpindleResult>) -> Seq<u8>
    decreases s.len(),
{
    if s.len() == 0 {
        Seq::empty()
    } else {
        spec_spindle_blocks(s.drop_last()) + spec_spindle_block(s.last())
    }
}

/// Serialize the eighteen-byte block of one spindle.
fn serialize_spindle_block(spindle: &crate::multi_spindle::SpindleResult) -> (r: Vec<u8>)
    ensures
        r@ == spec_spindle_block(*spindle),
{
    let mut r: Vec<u8> = Vec::new();

    let b = crate::protocol::digits::format_uint(spindle.spindle_id as u64, 2);
    extend_bytes(&mut r, b.as_slice());

    let b = crate::protocol::digits::format_uint(spindle.channel_id as u64, 2);
    extend_bytes(&mut r, b.as_slice());

    let overall: u64 = if spindle.is_ok() {
        1
    } else {
        0
    };
    let b = crate::protocol::digits::format_uint(overall, 1);
    extend_bytes(&mut r, b.as_slice());

    let b = crate::protocol::digits::format_uint(spindle.torque_status as u64, 1);
    extend_bytes(&mut r, b.as_slice());

    let b = crate::protocol::field::format_int(spindle.torque, 6);
    extend_bytes(&mut r, b.as_slice());

    let b = crate::protocol::digits::format_uint(spindle.angle_status as u64, 1);
    extend_bytes(&mut r, b.as_slice());

    let b = crate::protocol::field::format_int(spindle.angle, 5);
    extend_bytes(&mut r, b.as_slice());

    r
}

/// Multi-spindle result broadcast, with batch context and default limits.
pub struct MultiSpindleResultBroadcast {
    /// The aggregated result.
    pub result: MultiSpindleResult,
    /// Vehicle id.
    pub vin_number: String,
    /// Job id.
    pub job_id: u32,
    /// Parameter set id.
    pub pset_id: u32,
    /// Batch size.
    pub batch_size: u32,
    /// Batch counter.
    pub batch_counter: u32,
    /// Batch status: 0 NOK, 1 OK, 2 not used.
    pub batch_status: u8,
    /// Torque minimum limit in hundredths of a newton-metre.
    pub torque_min_cnm: i32,
    /// Torque maximum limit in hundredths of a newton-metre.
    pub torque_max_cnm: i32,
    /// Torque target in hundredths of a newton-metre.
    pub torque_target_cnm: i32,
    /// Angle minimum in degrees.
    pub angle_min_deg: i32,
    /// Angle maximum in degrees.
    pub angle_max_deg: i32,
    /// Angle target in degrees.
    pub angle_target_deg: i32,
    /// When the parameter set last changed.
    pub last_change_timestamp: String,
}

impl MultiSpindleResultBroadcast {
    /// Build a broadcast around a result, with this controller's default
    /// torque and angle limits and a clock timestamp for the last change.
    pub fn new(
        result: MultiSpindleResult,
        vin_number: String,
        job_id: u32,
        pset_id: u32,
        batch_size: u32,
        batch_counter: u32,
        batch_status: u8,
    ) -> (r: Self)
        ensures
            r.result == result,
            r.vin_number == vin_number,
            r.job_id == job_id,
            r.pset_id == pset_id,
            r.batch_size == batch_size,
            r.batch_counter == batch_counter,
            r.batch_status == batch_status,
            r.torque_min_cnm == 4500,
            r.torque_max_cnm == 5500,
            r.torque_target_cnm == 5000,
            r.angle_min_deg == 170,
            r.angle_max_deg == 190,
            r.angle_target_deg == 180,
    {
        Self {
            result,
            vin_number,
            job_id,
            pset_id,
            batch_size,
            batch_counter,
            batch_status,
            torque_min_cnm: 4500,
            torque_max_cnm: 5500,
            torque_target_cnm: 5000,
            angle_min_deg: 170,
            angle_max_deg: 190,
            angle_target_deg: 180,
            last_change_timestamp: now_stamp_coloned(),
        }
    }
}

impl ResponseData for MultiSpindleResultBroadcast {
    /// Seventeen numbered parameters, one eighteen-byte block per spindle,
    /// and the closing parameter marker.
    open spec fn spec_serialized(&self) -> Seq<u8> {
        spec_param_uint(1, self.result.spindle_count as nat, 2) + spec_param_str(
            2,
            spec_str_bytes(self.vin_number@),
            25,
        ) + spec_param_uint(3, self.job_id as nat, 2) + spec_param_uint(4, self.pset_id as nat, 3)
            + spec_param_uint(5, self.batch_size as nat, 4) + spec_param_uint(
            6,
            self.batch_counter as nat,
            4,
        ) + spec_param_uint(7, self.batch_status as nat, 1) + spec_param_int(
            8,
            self.torque_min_cnm as int,
            6,
        ) + spec_param_int(9, self.torque_max_cnm as int, 6) + spec_param_int(
            10,
            self.torque_target_cnm as int,
            6,
        ) + spec_param_int(11, self.angle_min_deg as int, 5) + spec_param_int(
            12,
            self.angle_max_deg as int,
            5,
        ) + spec_param_int(13, self.angle_target_deg as int, 5) + spec_param_str(
            14,
            spec_str_bytes(self.last_change_timestamp@),
            19,
        ) + spec_param_str(15, spec_str_bytes(self.result.timestamp@), 19) + spec_param_uint(
            16,
            self.result.result_id as nat,
            5,
        ) + spec_param_uint(17, self.result.overall_status as nat, 1) + spec_spindle_blocks(
            self.result.spindle_results@,
        ) + spec_param_uint(18, 0, 0)
    }

    #[verifier::rlimit(100)]
    fn serialize(&self) -> (r: Vec<u8>) {
        let mut r: Vec<u8> = Vec::new();

        let f = Field::from_uint(Some(1), self.result.spindle_count as u32, 2);
        let b = f.serialize();
        extend_bytes(&mut r, b.as_slice());

        let f = Field::from_str(Some(2), self.vin_number.as_str(), 25);
        let b = f.serialize();
        extend_bytes(&mut r, b.as_slice());

        let f = Field::from_uint(Some(3), self.job_id, 2);
        let b = f.serialize();
        extend_bytes(&mut r, b.as_slice());

        let f = Field::from_uint(Some(4), self.pset_id, 3);
        let b = f.serialize();
        extend_bytes(&mut r, b.as_slice());

        let f = Field::from_uint(Some(5), self.batch_size, 4);
        let b = f.serialize();
        extend_bytes(&mut r, b.as_slice());

        let f = Field::from_uint(Some(6), self.batch_counter, 4);
        let b = f.serialize();
        extend_bytes(&mut r, b.as_slice());

        let f = Field::from_uint(Some(7), self.batch_status as u32, 1);
        let b = f.serialize();
        extend_bytes(&mut r, b.as_slice());

        let f = Field::from_int(Some(8), self.torque_min_cnm, 6);
        let b = f.serialize();
        extend_bytes(&mut r, b.as_slice());

        let f = Field::from_int(Some(9), self.torque_max_cnm, 6);
        let b = f.serialize();
        extend_bytes(&mut r, b.as_slice());

        let f = Field::from_int(Some(10), self.torque_target_cnm, 6);
        let b = f.serialize();
        extend_bytes(&mut r, b.as_slice());

        let f = Field::from_int(Some(11), self.angle_min_deg, 5);
        let b = f.serialize();
        extend_bytes(&mut r, b.as_slice());

        let f = Field::from_int(Some(12), self.angle_max_deg, 5);
        let b = f.serialize();
        extend_bytes(&mut r, b.as_slice());

        let f = Field::from_int(Some(13), self.angle_target_deg, 5);
        let b = f.serialize();
        extend_bytes(&mut r, b.as_slice());

        let f = Field::from_str(Some(14), self.last_change_timestamp.as_str(), 19);
        let b = f.serialize();
        extend_bytes(&mut r, b.as_slice());

        let f = Field::from_str(Some(15), self.result.timestamp.as_str(), 19);
        let b = f.serialize();
        extend_bytes(&mut r, b.as_slice());

        let f = Field::from_uint(Some(16), self.result.result_id, 5);
        let b = f.serialize();
        extend_bytes(&mut r, b.as_slice());

        let f = Field::from_uint(Some(17), self.result.overall_status as u32, 1);
        let b = f.serialize();
        extend_bytes(&mut r, b.as_slice());

        let ghost header = r@;
        let mut i: usize = 0;
        while i < self.result.spindle_results.len()
            invariant
                0 <= i <= self.result.spindle_results@.len(),
                r@ == header + spec_spindle_blocks(self.result.spindle_results@.take(i as int)),
            decreases self.result.spindle_results@.len() - i,
        {
            let spindle = &self.result.spindle_results[i];

            let block = serialize_spindle_block(spindle);
            extend_bytes(&mut r, block.as_slice());
            proof {
                let t = self.result.spindle_results@.take(i + 1);
                assert(t.drop_last() =~= self.result.spindle_results@.take(i as int));
                assert(t.last() == self.result.spindle_results@[i as int]);
            }
            i = i + 1;
        }
        proof {
            assert(self.result.spindle_results@.take(i as int) =~= self.result.spindle_results@);
        }

        let f = Field::from_uint(Some(18), 0, 0);
        let b = f.serialize();
        extend_bytes(&mut r, b.as_slice());

        r
    }
}

/// Last tightening result data: the full record of one completed
/// tightening.  Torque values are in hundredths of a newton-metre; angles
/// are in tenths of a degree and travel on the wire in whole degrees.
#[derive(Debug, Clone)]
pub struct TighteningResult {
    /// Cell id (parameter 01).
    pub cell_id: u32,
    /// Channel id (parameter 02).
    pub channel_id: u32,
    /// Torque controller name (parameter 03).
    pub controller_name: String,
    /// Vehicle id (parameter 04), optional.
    pub vin_number: Option<String>,
    /// Job id (parameter 05).
    pub job_id: u32,
    /// Parameter set id (parameter 06).
    pub pset_id: u32,
    /// Batch size (parameter 07).
    pub batch_size: u32,
    /// Batch counter (parameter 08).
    pub batch_counter: u32,
    /// Tightening status (parameter 09).
    pub tightening_status: bool,
    /// Torque status (parameter 10).
    pub torque_status: bool,
    /// Angle status (parameter 11).
    pub angle_status: bool,
    /// Torque minimum limit in hundredths of a newton-metre (parameter 12).
    pub torque_min_cnm: i32,
    /// Torque maximum limit in hundredths of a newton-metre (parameter 13).
    pub torque_max_cnm: i32,
    /// Torque target in hundredths of a newton-metre (parameter 14).
    pub torque_target_cnm: i32,
    /// Actual torque in hundredths of a newton-metre (parameter 15).
    pub torque_cnm: i32,
    /// Angle minimum in tenths of a degree (parameter 16).
    pub angle_min_ddeg: i32,
    /// Angle maximum in tenths of a degree (parameter 17).
    pub angle_max_ddeg: i32,
    /// Angle target in tenths of a degree (parameter 18).
    pub angle_target_ddeg: i32,
    /// Actual angle in tenths of a degree (parameter 19).
    pub angle_ddeg: i32,
    /// Timestamp (parameter 20).
    pub timestamp: String,
    /// Last change in parameter set (parameter 21), optional.
    pub last_pset_change: Option<String>,
    /// Batch status (parameter 22): OK, NOK, or not used.
    pub batch_status: Option<bool>,
    /// Tightening id (parameter 23), optional.
    pub tightening_id: Option<u32>,
}

impl TighteningResult {
    /// A result with example values.
    pub fn example() -> (r: Self)
        ensures
            r.cell_id == 1,
            r.pset_id == 1,
            r.batch_size == 10,
            r.batch_counter == 5,
            r.tightening_status,
    {
        Self {
            cell_id: 1,
            channel_id: 1,
            controller_name: "Simulator".to_owned(),
            vin_number: Some("TEST123456789".to_owned()),
            job_id: 1,
            pset_id: 1,
            batch_size: 10,
            batch_counter: 5,
            tightening_status: true,
            torque_status: true,
            angle_status: true,
            torque_min_cnm: 1000,
            torque_max_cnm: 1500,
            torque_target_cnm: 1250,
            torque_cnm: 1230,
            angle_min_ddeg: 300,
            angle_max_ddeg: 500,
            angle_target_ddeg: 400,
            angle_ddeg: 395,
            timestamp: "2025-01-15:10:30:45".to_owned(),
            last_pset_change: Some("2025-01-15:09:00:00".to_owned()),
            batch_status: Some(true),
            tightening_id: Some(12345),
        }
    }
}

impl ResponseData for TighteningResult {
    /// Twenty-three numbered parameters.  A missing vehicle id or pset
    /// change serializes as spaces, a missing batch status as "not used"
    /// (2), a missing tightening id as zero.
    open spec fn spec_serialized(&self) -> Seq<u8> {
        spec_param_uint(1, self.cell_id as nat, 4) + spec_param_uint(2, self.channel_id as nat, 2)
            + spec_param_str(3, spec_str_bytes(self.controller_name@), 25) + spec_param_str(
            4,
            match self.vin_number {
                Some(vin) => spec_str_bytes(vin@),
                None => Seq::empty(),
            },
            25,
        ) + spec_param_uint(5, self.job_id as nat, 2) + spec_param_uint(6, self.pset_id as nat, 3)
            + spec_param_uint(7, self.batch_size as nat, 4) + spec_param_uint(
            8,
            self.batch_counter as nat,
            4,
        ) + spec_param_uint(
            9,
            if self.tightening_status {
                1nat
            } else {
                0nat
            },
            1,
        ) + spec_param_uint(
            10,
            if self.torque_status {
                1nat
            } else {
                0nat
            },
            1,
        ) + spec_param_uint(
            11,
            if self.angle_status {
                1nat
            } else {
                0nat
            },
            1,
        ) + spec_param_int(12, self.torque_min_cnm as int, 6) + spec_param_int(
            13,
            self.torque_max_cnm as int,
            6,
        ) + spec_param_int(14, self.torque_target_cnm as int, 6) + spec_param_int(
            15,
            self.torque_cnm as int,
            6,
        ) + spec_param_int(16, spec_div10_trunc(self.angle_min_ddeg as int), 5) + spec_param_int(
            17,
            spec_div10_trunc(self.angle_max_ddeg as int),
            5,
        ) + spec_param_int(18, spec_div10_trunc(self.angle_target_ddeg as int), 5) + spec_param_int(
            19,
            spec_div10_trunc(self.angle_ddeg as int),
            5,
        ) + spec_param_str(20, spec_str_bytes(self.timestamp@), 19) + spec_param_str(
            21,
            match self.last_pset_change {
                Some(change) => spec_str_bytes(change@),
                None => Seq::empty(),
            },
            19,
        ) + spec_param_uint(
            22,
            match self.batch_status {
                Some(true) => 1nat,
                Some(false) => 0nat,
                None => 2nat,
            },
            1,
        ) + spec_param_uint(
            23,
            match self.tightening_id {
                Some(id) => id as nat,
                None => 0nat,
            },
            10,
        )
    }

    #[verifier::rlimit(100)]
    fn serialize(&self) -> (r: Vec<u8>) {
        let mut r: Vec<u8> = Vec::new();

        let f = Field::from_uint(Some(1), self.cell_id, 4);
        let b = f.serialize();
        extend_bytes(&mut r, b.as_slice());

        let f = Field::from_uint(Some(2), self.channel_id, 2);
        let b = f.serialize();
        extend_bytes(&mut r, b.as_slice());

        let f = Field::from_str(Some(3), self.controller_name.as_str(), 25);
        let b = f.serialize();
        extend_bytes(&mut r, b.as_slice());

        let f = match &self.vin_number {
            Some(vin) => Field::from_str(Some(4), vin.as_str(), 25),
            None => Field::from_str(Some(4), "", 25),
        };
        let b = f.serialize();
        proof {
            reveal_strlit("");
            assert(spec_str_bytes(""@) =~= Seq::<u8>::empty());
        }
        extend_bytes(&mut r, b.as_slice());

        let f = Field::from_uint(Some(5), self.job_id, 2);
        let b = f.serialize();
        extend_bytes(&mut r, b.as_slice());

        let f = Field::from_uint(Some(6), self.pset_id, 3);
        let b = f.serialize();
        extend_bytes(&mut r, b.as_slice());

        let f = Field::from_uint(Some(7), self.batch_size, 4);
        let b = f.serialize();
        extend_bytes(&mut r, b.as_slice());

        let f = Field::from_uint(Some(8), self.batch_counter, 4);
        let b = f.serialize();
        extend_bytes(&mut r, b.as_slice());

        let f = Field::from_uint(Some(9), if self.tightening_status { 1 } else { 0 }, 1);
        let b = f.serialize();
        extend_bytes(&mut r, b.as_slice());

        let f = Field::from_uint(Some(10), if self.torque_status { 1 } else { 0 }, 1);
        let b = f.serialize();
        extend_bytes(&mut r, b.as_slice());

        let f = Field::from_uint(Some(11), if self.angle_status { 1 } else { 0 }, 1);
        let b = f.serialize();
        extend_bytes(&mut r, b.as_slice());

        let f = Field::from_int(Some(12), self.torque_min_cnm, 6);
        let b = f.serialize();
        extend_bytes(&mut r, b.as_slice());

        let f = Field::from_int(Some(13), self.torque_max_cnm, 6);
        let b = f.serialize();
        extend_bytes(&mut r, b.as_slice());

        let f = Field::from_int(Some(14), self.torque_target_cnm, 6);
        let b = f.serialize();
        extend_bytes(&mut r, b.as_slice());

        let f = Field::from_int(Some(15), self.torque_cnm, 6);
        let b = f.serialize();
        extend_bytes(&mut r, b.as_slice());

        let f = Field::from_int(Some(16), div10_trunc(self.angle_min_ddeg), 5);
        let b = f.serialize();
        extend_bytes(&mut r, b.as_slice());

        let f = Field::from_int(Some(17), div10_trunc(self.angle_max_ddeg), 5);
        let b = f.serialize();
        extend_bytes(&mut r, b.as_slice());

        let f = Field::from_int(Some(18), div10_trunc(self.angle_target_ddeg), 5);
        let b = f.serialize();
        extend_bytes(&mut r, b.as_slice());

        let f = Field::from_int(Some(19), div10_trunc(self.angle_ddeg), 5);
        let b = f.serialize();
        extend_bytes(&mut r, b.as_slice());

        let f = Field::from_str(Some(20), self.timestamp.as_str(), 19);
        let b = f.serialize();
        extend_bytes(&mut r, b.as_slice());

        let f = match &self.last_pset_change {
            Some(change) => Field::from_str(Some(21), change.as_str(), 19),
            None => Field::from_str(Some(21), "", 19),
        };
        let b = f.serialize();
        proof {
            reveal_strlit("");
            assert(spec_str_bytes(""@) =~= Seq::<u8>::empty());
        }
        extend_bytes(&mut r, b.as_slice());

        let batch_status_val: u32 = match self.batch_status {
            Some(true) => 1,
            Some(false) => 0,
            None => 2,
        };
        let f = Field::from_uint(Some(22), batch_status_val, 1);
        let b = f.serialize();
        extend_bytes(&mut r, b.as_slice());

        let tightening_id = match self.tightening_id {
            Some(id) => id,
            None => 0,
        };
        let f = Field::from_uint(Some(23), tightening_id, 10);
        let b = f.serialize();
        extend_bytes(&mut r, b.as_slice());

        r
    }
}

} // verus!
