//! Parameter fields of a message body.
//!
//! A field is an optional two-digit parameter id followed by a value.
//! Integer values are zero-padded to a fixed width; string values are
//! space-padded on the right and truncated when longer than their width.
//! A body is the concatenation of its fields in order.

use vstd::prelude::*;

use crate::protocol::digits::{format_uint, spec_zero_pad};
use vstd::string::StringSliceAdditionalSpecFns;

verus! {

/// ASCII code of the space byte.
pub const SPACE: u8 = 32;

/// ASCII code of the minus sign.
pub const MINUS: u8 = 45;

/// A sequence of `n` spaces.
pub open spec fn spec_spaces(n: nat) -> Seq<u8> {
    Seq::new(n, |i: int| SPACE)
}

/// A signed value in decimal: non-negative values are zero-padded to the
/// width; negative values spend one byte on the sign and zero-pad the rest.
pub open spec fn spec_signed_decimal(v: int, w: nat) -> Seq<u8> {
    if v >= 0 {
        spec_zero_pad(v as nat, w)
    } else {
        seq![MINUS] + spec_zero_pad((-v) as nat, if w >= 1 { (w - 1) as nat } else { 0 })
    }
}

/// The UTF-8 bytes of a character sequence.
pub open spec fn spec_str_bytes(s: Seq<char>) -> Seq<u8> {
    vstd::utf8::encode_utf8(s)
}

/// A string value in a fixed width: truncated on the right when longer,
/// space-padded on the right when shorter.
pub open spec fn spec_fit_width(b: Seq<u8>, w: nat) -> Seq<u8> {
    if b.len() >= w {
        b.take(w as int)
    } else {
        b + spec_spaces((w - b.len()) as nat)
    }
}

/// A numbered parameter holding an unsigned integer value.
pub open spec fn spec_param_uint(id: nat, v: nat, w: nat) -> Seq<u8> {
    spec_zero_pad(id, 2) + spec_zero_pad(v, w)
}

/// A numbered parameter holding a signed integer value.
pub open spec fn spec_param_int(id: nat, v: int, w: nat) -> Seq<u8> {
    spec_zero_pad(id, 2) + spec_signed_decimal(v, w)
}

/// A numbered parameter holding a fixed-width string value.
pub open spec fn spec_param_str(id: nat, b: Seq<u8>, w: nat) -> Seq<u8> {
    spec_zero_pad(id, 2) + spec_fit_width(b, w)
}

/// Append all of `src` to `dst`.
pub fn extend_bytes(dst: &mut Vec<u8>, src: &[u8])
    ensures
        final(dst)@ == old(dst)@ + src@,
{
    let mut i: usize = 0;
    while i < src.len()
        invariant
            0 <= i <= src@.len(),
            dst@ == old(dst)@ + src@.take(i as int),
        decreases src@.len() - i,
    {
        dst.push(src[i]);
        proof {
            assert(dst@ =~= old(dst)@ + src@.take(i + 1));
        }
        i = i + 1;
    }
    proof {
        assert(dst@ =~= old(dst)@ + src@);
    }
}

/// A signed value in decimal ASCII, zero-padded to at least `width` bytes.
pub fn format_int(value: i32, width: usize) -> (r: Vec<u8>)
    ensures
        r@ == spec_signed_decimal(value as int, width as nat),
{
    if value >= 0 {
        format_uint(value as u64, width)
    } else {
        let magnitude = (-(value as i64)) as u64;
        let inner_width = if width >= 1 {
            width - 1
        } else {
            0
        };
        let mut r: Vec<u8> = Vec::new();
        r.push(MINUS);
        let digits = format_uint(magnitude, inner_width);
        extend_bytes(&mut r, digits.as_slice());
        proof {
            assert(r@ =~= spec_signed_decimal(value as int, width as nat));
        }
        r
    }
}

/// A parameter field: an optional two-digit id and a value.
#[derive(Debug, Clone)]
pub struct Field {
    /// Parameter id, emitted as two zero-padded digits before the value.
    pub id: Option<u8>,
    /// Value bytes, already padded to their width.
    pub value: Vec<u8>,
}

impl Field {
    /// The exact bytes this field serializes to.
    pub open spec fn spec_serialized(&self) -> Seq<u8> {
        match self.id {
            Some(id) => spec_zero_pad(id as nat, 2) + self.value@,
            None => self.value@,
        }
    }

    /// Create a field holding the bytes of `value` unchanged.
    pub fn new(id: Option<u8>, value: &str) -> (r: Self)
        ensures
            r.id == id,
            r.value@ == value.spec_bytes(),
    {
        let bytes = value.as_bytes();
        let mut owned: Vec<u8> = Vec::new();
        extend_bytes(&mut owned, bytes);
        Self { id, value: owned }
    }

    /// Create a field from an integer, zero-padded to `width`.
    pub fn from_int(id: Option<u8>, value: i32, width: usize) -> (r: Self)
        ensures
            r.id == id,
            r.value@ == spec_signed_decimal(value as int, width as nat),
    {
        Self { id, value: format_int(value, width) }
    }

    /// Create a field from an unsigned integer, zero-padded to `width`.
    pub fn from_uint(id: Option<u8>, value: u32, width: usize) -> (r: Self)
        ensures
            r.id == id,
            r.value@ == spec_zero_pad(value as nat, width as nat),
    {
        Self { id, value: format_uint(value as u64, width) }
    }

    /// Create a field from a string in a fixed width: space-padded on the
    /// right, truncated on the right when longer than `width`.
    pub fn from_str(id: Option<u8>, value: &str, width: usize) -> (r: Self)
        ensures
            r.id == id,
            r.value@ == spec_fit_width(value.spec_bytes(), width as nat),
            r.value@.len() == width,
    {
        Self { id, value: fit_width(value.as_bytes(), width) }
    }

    /// Serialize this field: the two-digit id, when present, then the value.
    pub fn serialize(&self) -> (r: Vec<u8>)
        ensures
            r@ == self.spec_serialized(),
    {
        let mut r: Vec<u8> = Vec::new();
        match self.id {
            Some(id) => {
                let id_bytes = format_uint(id as u64, 2);
                extend_bytes(&mut r, id_bytes.as_slice());
            },
            None => {},
        }
        extend_bytes(&mut r, self.value.as_slice());
        proof {
            assert(r@ =~= self.spec_serialized());
        }
        r
    }
}

/// Fit byte content to a width: truncate on the right when longer, pad with
/// spaces on the right when shorter.
pub fn fit_width(b: &[u8], width: usize) -> (r: Vec<u8>)
    ensures
        r@ == spec_fit_width(b@, width as nat),
        r@.len() == width,
{
    let mut r: Vec<u8> = Vec::new();
    if b.len() >= width {
        let head = vstd::slice::slice_subrange(b, 0, width);
        extend_bytes(&mut r, head);
        proof {
            assert(r@ =~= spec_fit_width(b@, width as nat));
        }
    } else {
        extend_bytes(&mut r, b);
        let mut i: usize = b.len();
        while i < width
            invariant
                b@.len() <= i <= width,
                r@ == b@ + spec_spaces((i - b@.len()) as nat),
            decreases width - i,
        {
            r.push(SPACE);
            proof {
                assert(r@ =~= b@ + spec_spaces((i + 1 - b@.len()) as nat));
            }
            i = i + 1;
        }
        proof {
            assert(r@ =~= spec_fit_width(b@, width as nat));
        }
    }
    r
}

/// The concatenation of the serializations of a sequence of fields.
pub open spec fn spec_fields_serialized(fields: Seq<Field>) -> Seq<u8>
    decreases fields.len(),
{
    if fields.len() == 0 {
        Seq::empty()
    } else {
        spec_fields_serialized(fields.drop_last()) + fields.last().spec_serialized()
    }
}

/// Builder that accumulates parameter fields in order.
pub struct FieldBuilder {
    /// The fields added so far, in order.
    pub fields: Vec<Field>,
}

impl FieldBuilder {
    /// Create an empty builder.
    pub fn new() -> (r: Self)
        ensures
            r.fields@.len() == 0,
    {
        Self { fields: Vec::new() }
    }

    /// Append a field.
    pub fn add_field(self, field: Field) -> (r: Self)
        ensures
            r.fields@ == self.fields@.push(field),
    {
        let mut fields = self.fields;
        fields.push(field);
        Self { fields }
    }

    /// Append an integer field.
    pub fn add_int(self, id: Option<u8>, value: i32, width: usize) -> (r: Self)
        ensures
            r.fields@.len() == self.fields@.len() + 1,
            r.fields@.drop_last() == self.fields@,
            r.fields@.last().id == id,
            r.fields@.last().value@ == spec_signed_decimal(value as int, width as nat),
    {
        let r = self.add_field(Field::from_int(id, value, width));
        proof {
            assert(r.fields@.drop_last() =~= self.fields@);
        }
        r
    }

    /// Append a fixed-width string field.
    pub fn add_str(self, id: Option<u8>, value: &str, width: usize) -> (r: Self)
        ensures
            r.fields@.len() == self.fields@.len() + 1,
            r.fields@.drop_last() == self.fields@,
            r.fields@.last().id == id,
            r.fields@.last().value@ == spec_fit_width(value.spec_bytes(), width as nat),
    {
        let r = self.add_field(Field::from_str(id, value, width));
        proof {
            assert(r.fields@.drop_last() =~= self.fields@);
        }
        r
    }

    /// Serialize all fields in order into one byte vector.
    pub fn build(self) -> (r: Vec<u8>)
        ensures
            r@ == spec_fields_serialized(self.fields@),
    {
        let mut r: Vec<u8> = Vec::new();
        let mut i: usize = 0;
        while i < self.fields.len()
            invariant
                0 <= i <= self.fields@.len(),
                r@ == spec_fields_serialized(self.fields@.take(i as int)),
            decreases self.fields@.len() - i,
        {
            let field_bytes = self.fields[i].serialize();
            extend_bytes(&mut r, field_bytes.as_slice());
            proof {
                assert(self.fields@.take(i + 1).drop_last() =~= self.fields@.take(i as int));
                assert(self.fields@.take(i + 1).last() == self.fields@[i as int]);
            }
            i = i + 1;
        }
        proof {
            assert(self.fields@.take(i as int) =~= self.fields@);
        }
        r
    }
}

impl Default for FieldBuilder {
    /// An empty builder.
    fn default() -> (r: Self)
        ensures
            r.fields@.len() == 0,
    {
        Self::new()
    }
}

} // verus!
