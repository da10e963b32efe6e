//! Serialization of responses into the wire format.

use vstd::prelude::*;

use crate::protocol::digits::{
    format_uint, lemma_zero_pad_width, pow10, spec_zero_pad,
};
use crate::protocol::field::{extend_bytes, spec_spaces};
use crate::protocol::{Response, HEADER_SIZE};

verus! {

/// Largest value the four-digit length field can carry.
pub const MAX_FRAME_LEN: usize = 9999;

/// Largest body such that the whole frame still fits the length field.
pub const MAX_BODY_LEN: usize = 9979;

/// Largest message identifier the four-digit MID field can carry.
pub const MAX_MID: u16 = 9999;

/// The exact wire bytes of a response: four-digit length (twenty plus the
/// body length), four-digit mid, three-digit revision, nine spaces, body.
pub open spec fn spec_serialize_response(mid: u16, revision: u8, data: Seq<u8>) -> Seq<u8> {
    spec_zero_pad((HEADER_SIZE + data.len()) as nat, 4) + spec_zero_pad(mid as nat, 4)
        + spec_zero_pad(revision as nat, 3) + spec_spaces(9) + data
}

/// Serialize a response into the wire format.  The output is always exactly
/// twenty bytes of header followed by the body, so its length field equals
/// its byte length.
pub fn serialize_response(response: &Response) -> (r: Vec<u8>)
    requires
        response.mid <= MAX_MID,
        response.data@.len() <= MAX_BODY_LEN,
    ensures
        r@ == spec_serialize_response(response.mid, response.revision, response.data@),
        r@.len() == HEADER_SIZE + response.data@.len(),
{
    let total_length = HEADER_SIZE + response.data.len();

    let mut buffer: Vec<u8> = Vec::new();

    let length_bytes = format_uint(total_length as u64, 4);
    extend_bytes(&mut buffer, length_bytes.as_slice());

    let mid_bytes = format_uint(response.mid as u64, 4);
    extend_bytes(&mut buffer, mid_bytes.as_slice());

    let revision_bytes = format_uint(response.revision as u64, 3);
    extend_bytes(&mut buffer, revision_bytes.as_slice());

    let mut i: usize = 0;
    while i < 9
        invariant
            0 <= i <= 9,
            buffer@ == spec_zero_pad((HEADER_SIZE + response.data@.len()) as nat, 4)
                + spec_zero_pad(response.mid as nat, 4) + spec_zero_pad(response.revision as nat, 3)
                + spec_spaces(i as nat),
        decreases 9 - i,
    {
        buffer.push(crate::protocol::field::SPACE);
        proof {
            assert(buffer@ =~= spec_zero_pad((HEADER_SIZE + response.data@.len()) as nat, 4)
                + spec_zero_pad(response.mid as nat, 4) + spec_zero_pad(response.revision as nat, 3)
                + spec_spaces((i + 1) as nat));
        }
        i = i + 1;
    }

    extend_bytes(&mut buffer, response.data.as_slice());

    proof {
        assert(buffer@ =~= spec_serialize_response(
            response.mid,
            response.revision,
            response.data@,
        ));
        lemma_header_field_widths(response.mid, response.revision, response.data@);
    }
    buffer
}

/// The three numeric header fields of a well-formed response occupy exactly
/// four, four and three bytes.
pub proof fn lemma_header_field_widths(mid: u16, revision: u8, data: Seq<u8>)
    requires
        mid <= MAX_MID,
        data.len() <= MAX_BODY_LEN,
    ensures
        spec_zero_pad((HEADER_SIZE + data.len()) as nat, 4).len() == 4,
        spec_zero_pad(mid as nat, 4).len() == 4,
        spec_zero_pad(revision as nat, 3).len() == 3,
        spec_serialize_response(mid, revision, data).len() == HEADER_SIZE + data.len(),
{
    assert(pow10(4) == 10000) by {
        reveal_with_fuel(pow10, 5);
    }
    assert(pow10(3) == 1000) by {
        reveal_with_fuel(pow10, 4);
    }
    lemma_zero_pad_width((HEADER_SIZE + data.len()) as nat, 4);
    lemma_zero_pad_width(mid as nat, 4);
    lemma_zero_pad_width(revision as nat, 3);
}

} // verus!
