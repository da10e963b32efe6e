//! The ASCII wire message model: a fixed-width header plus an optional body.
//!
//! A message on the wire is `length (4 digits) + mid (4 digits) + revision
//! (3 digits) + 9 reserved spaces + body`, at least twenty bytes in all.
//! The declared length must equal the byte length of the whole message.

pub mod digits;
pub mod field;
pub mod parser;
pub mod serializer;
pub mod response_data;

use vstd::prelude::*;

use response_data::ResponseData;

verus! {

/// Size of the fixed message header in bytes.
pub const HEADER_SIZE: usize = 20;

/// A parsed inbound message.
#[derive(Debug, Clone)]
pub struct Message {
    /// Total message length as declared in the header.
    pub length: u32,
    /// Message identifier.
    pub mid: u16,
    /// Protocol revision.
    pub revision: u8,
    /// Message-specific payload (bytes after the header).
    pub data: Vec<u8>,
}

/// A response message to be serialized and sent back.
#[derive(Debug, Clone)]
pub struct Response {
    /// Message identifier.
    pub mid: u16,
    /// Protocol revision.
    pub revision: u8,
    /// Message-specific payload.
    pub data: Vec<u8>,
}

impl Response {
    /// Create a new response with a raw payload.
    pub fn new(mid: u16, revision: u8, data: Vec<u8>) -> (r: Self)
        ensures
            r.mid == mid,
            r.revision == revision,
            r.data == data,
    {
        Self { mid, revision, data }
    }

    /// Create a response from a typed payload.
    pub fn from_data<T: ResponseData>(mid: u16, revision: u8, data: T) -> (r: Self)
        ensures
            r.mid == mid,
            r.revision == revision,
            r.data@ == data.spec_serialized(),
    {
        let payload = data.serialize();
        Self { mid, revision, data: payload }
    }
}

/// Errors reported by the message parser.  The byte payloads carry the
/// offending header field.
#[derive(Debug, Clone, PartialEq, Eq)]
pub enum ProtocolError {
    /// Fewer bytes than the twenty-byte header.
    MessageTooShort(usize),
    /// The length field holds a non-digit byte.
    InvalidLength(Vec<u8>),
    /// The MID field holds a non-digit byte.
    InvalidMid(Vec<u8>),
    /// The revision field holds a non-digit byte or a value above 255.
    InvalidRevision(Vec<u8>),
    /// The declared length differs from the actual byte length.
    LengthMismatch { expected: usize, actual: usize },
}

} // verus!
