//! Parsing of raw wire bytes into messages, and the round-trip laws that
//! tie the parser to the serializer.

use vstd::prelude::*;

use crate::protocol::digits::{
    lemma_digits_are_digits, lemma_parse_digits, lemma_parse_uint_bound, lemma_zero_pad_width,
    parse_uint, pow10, spec_is_digits, spec_parse_uint, spec_zero_pad,
};
use crate::protocol::field::extend_bytes;
use crate::protocol::serializer::{
    lemma_header_field_widths, spec_serialize_response, MAX_BODY_LEN, MAX_MID,
};
use crate::protocol::{Message, ProtocolError, HEADER_SIZE};
use vstd::slice::slice_subrange;

verus! {

/// The four length bytes of a raw message.
pub open spec fn spec_length_field(data: Seq<u8>) -> Seq<u8> {
    data.subrange(0, 4)
}

/// The four MID bytes of a raw message.
pub open spec fn spec_mid_field(data: Seq<u8>) -> Seq<u8> {
    data.subrange(4, 8)
}

/// The three revision bytes of a raw message.
pub open spec fn spec_revision_field(data: Seq<u8>) -> Seq<u8> {
    data.subrange(8, 11)
}

/// A raw message parses successfully exactly when it is at least as long as
/// the header, its length field holds digits that equal its byte length,
/// its MID field holds digits, and its revision field holds digits encoding
/// a value that fits one byte.
pub open spec fn spec_parse_ok(data: Seq<u8>) -> bool {
    &&& data.len() >= HEADER_SIZE
    &&& spec_is_digits(spec_length_field(data))
    &&& spec_parse_uint(spec_length_field(data)) == data.len()
    &&& spec_is_digits(spec_mid_field(data))
    &&& spec_is_digits(spec_revision_field(data))
    &&& spec_parse_uint(spec_revision_field(data)) <= u8::MAX
}

/// Copy a slice into an owned vector.
fn bytes_of(src: &[u8]) -> (r: Vec<u8>)
    ensures
        r@ == src@,
{
    let mut r: Vec<u8> = Vec::new();
    extend_bytes(&mut r, src);
    r
}

/// Parse a raw wire message.
///
/// On success the returned message carries the declared length (equal to the
/// byte length), the MID, the revision and the body bytes after the header.
/// Each failure is reported by the first check that the input misses, in
/// the order: header size, length digits, length match, MID digits,
/// revision digits and range.
pub fn parse_message(data: &[u8]) -> (r: Result<Message, ProtocolError>)
    ensures
        r is Ok <==> spec_parse_ok(data@),
        r matches Ok(m) ==> {
            &&& m.length == data@.len()
            &&& m.mid == spec_parse_uint(spec_mid_field(data@))
            &&& m.revision == spec_parse_uint(spec_revision_field(data@))
            &&& m.data@ == data@.skip(HEADER_SIZE as int)
        },
        r matches Err(e) ==> match e {
            ProtocolError::MessageTooShort(n) => data@.len() < HEADER_SIZE && n == data@.len(),
            ProtocolError::InvalidLength(b) => {
                &&& data@.len() >= HEADER_SIZE
                &&& !spec_is_digits(spec_length_field(data@))
                &&& b@ == spec_length_field(data@)
            },
            ProtocolError::LengthMismatch { expected, actual } => {
                &&& data@.len() >= HEADER_SIZE
                &&& spec_is_digits(spec_length_field(data@))
                &&& spec_parse_uint(spec_length_field(data@)) != data@.len()
                &&& expected == spec_parse_uint(spec_length_field(data@))
                &&& actual == data@.len()
            },
            ProtocolError::InvalidMid(b) => {
                &&& data@.len() >= HEADER_SIZE
                &&& spec_is_digits(spec_length_field(data@))
                &&& spec_parse_uint(spec_length_field(data@)) == data@.len()
                &&& !spec_is_digits(spec_mid_field(data@))
                &&& b@ == spec_mid_field(data@)
            },
            ProtocolError::InvalidRevision(b) => {
                &&& data@.len() >= HEADER_SIZE
                &&& spec_is_digits(spec_length_field(data@))
                &&& spec_parse_uint(spec_length_field(data@)) == data@.len()
                &&& spec_is_digits(spec_mid_field(data@))
                &&& (!spec_is_digits(spec_revision_field(data@)) || spec_parse_uint(
                    spec_revision_field(data@),
                ) > u8::MAX)
                &&& b@ == spec_revision_field(data@)
            },
        },
{
    if data.len() < HEADER_SIZE {
        return Err(ProtocolError::MessageTooShort(data.len()));
    }

    proof {
        assert(pow10(4) == 10000) by {
            reveal_with_fuel(pow10, 5);
        }
        assert(pow10(3) == 1000) by {
            reveal_with_fuel(pow10, 4);
        }
    }

    let length_field = slice_subrange(data, 0, 4);
    let length = match parse_uint(length_field) {
        Some(v) => v,
        None => {
            proof {
                if spec_is_digits(length_field@) {
                    lemma_parse_uint_bound(length_field@);
                }
            }
            return Err(ProtocolError::InvalidLength(bytes_of(length_field)));
        },
    };

    if (length as usize) != data.len() {
        return Err(ProtocolError::LengthMismatch { expected: length as usize, actual: data.len() });
    }

    let mid_field = slice_subrange(data, 4, 8);
    let mid = match parse_uint(mid_field) {
        Some(v) => v,
        None => {
            proof {
                if spec_is_digits(mid_field@) {
                    lemma_parse_uint_bound(mid_field@);
                }
            }
            return Err(ProtocolError::InvalidMid(bytes_of(mid_field)));
        },
    };
    proof {
        lemma_parse_uint_bound(mid_field@);
    }

    let revision_field = slice_subrange(data, 8, 11);
    let revision = match parse_uint(revision_field) {
        Some(v) => v,
        None => {
            proof {
                if spec_is_digits(revision_field@) {
                    lemma_parse_uint_bound(revision_field@);
                }
            }
            return Err(ProtocolError::InvalidRevision(bytes_of(revision_field)));
        },
    };
    if revision > u8::MAX as u32 {
        return Err(ProtocolError::InvalidRevision(bytes_of(revision_field)));
    }

    let body = bytes_of(slice_subrange(data, HEADER_SIZE, data.len()));

    Ok(Message { length, mid: mid as u16, revision: revision as u8, data: body })
}

/// Parsing inverts serialization: for every valid frame, the serialized
/// bytes parse successfully and hand back exactly the MID, the revision and
/// the body that were serialized, and the serialized length field equals
/// the frame's byte length.
pub proof fn lemma_parse_inverts_serialize(mid: u16, revision: u8, data: Seq<u8>)
    requires
        mid <= MAX_MID,
        data.len() <= MAX_BODY_LEN,
    ensures
        spec_parse_ok(spec_serialize_response(mid, revision, data)),
        spec_serialize_response(mid, revision, data).len() == HEADER_SIZE + data.len(),
        spec_parse_uint(spec_length_field(spec_serialize_response(mid, revision, data)))
            == HEADER_SIZE + data.len(),
        spec_parse_uint(spec_mid_field(spec_serialize_response(mid, revision, data))) == mid,
        spec_parse_uint(spec_revision_field(spec_serialize_response(mid, revision, data)))
            == revision,
        spec_serialize_response(mid, revision, data).skip(HEADER_SIZE as int) == data,
{
    let w = spec_serialize_response(mid, revision, data);
    let a = spec_zero_pad((HEADER_SIZE + data.len()) as nat, 4);
    let b = spec_zero_pad(mid as nat, 4);
    let c = spec_zero_pad(revision as nat, 3);
    lemma_header_field_widths(mid, revision, data);
    assert(pow10(4) == 10000) by {
        reveal_with_fuel(pow10, 5);
    }
    assert(pow10(3) == 1000) by {
        reveal_with_fuel(pow10, 4);
    }

    assert(spec_length_field(w) =~= a);
    assert(spec_mid_field(w) =~= b);
    assert(spec_revision_field(w) =~= c);

    lemma_digits_are_digits((HEADER_SIZE + data.len()) as nat, 4);
    lemma_digits_are_digits(mid as nat, 4);
    lemma_digits_are_digits(revision as nat, 3);
    lemma_zero_pad_width((HEADER_SIZE + data.len()) as nat, 4);
    lemma_zero_pad_width(mid as nat, 4);
    lemma_zero_pad_width(revision as nat, 3);
    lemma_parse_digits((HEADER_SIZE + data.len()) as nat, 4);
    lemma_parse_digits(mid as nat, 4);
    lemma_parse_digits(revision as nat, 3);

    assert(w.skip(HEADER_SIZE as int) =~= data);
}

/// Serialize, parse, serialize is a fixed point: serializing the parsed
/// pieces of a serialized frame reproduces the frame byte for byte.
pub proof fn lemma_serialize_parse_fixed_point(mid: u16, revision: u8, data: Seq<u8>)
    requires
        mid <= MAX_MID,
        data.len() <= MAX_BODY_LEN,
    ensures
        ({
            let w = spec_serialize_response(mid, revision, data);
            spec_serialize_response(
                spec_parse_uint(spec_mid_field(w)) as u16,
                spec_parse_uint(spec_revision_field(w)) as u8,
                w.skip(HEADER_SIZE as int),
            ) == w
        }),
{
    lemma_parse_inverts_serialize(mid, revision, data);
}

} // verus!
