//! Null-delimited framing over byte streams.
//!
//! A frame is the bytes before a single NUL delimiter; the delimiter is
//! consumed.  Encoding appends the delimiter after the frame bytes.

use vstd::prelude::*;

use crate::protocol::field::extend_bytes;

verus! {

/// The position of the first NUL byte, if any.
pub open spec fn spec_find_nul(b: Seq<u8>) -> Option<int>
    decreases b.len(),
{
    if b.len() == 0 {
        None
    } else if b[0] == 0 {
        Some(0)
    } else {
        match spec_find_nul(b.drop_first()) {
            Some(k) => Some(k + 1),
            None => None,
        }
    }
}

/// A prefix free of NULs followed by a NUL (or the end) pins the find down.
proof fn lemma_find_nul_at(b: Seq<u8>, i: int)
    requires
        0 <= i <= b.len(),
        forall|j: int| 0 <= j < i ==> #[trigger] b[j] != 0,
        i < b.len() ==> b[i] == 0,
    ensures
        i < b.len() ==> spec_find_nul(b) == Some(i),
        i == b.len() ==> spec_find_nul(b) is None,
    decreases i + 1,
{
    if b.len() == 0 {
    } else if i == 0 {
    } else {
        assert(b[0] != 0);
        let c = b.drop_first();
        assert forall|j: int| 0 <= j < i - 1 implies #[trigger] c[j] != 0 by {
            assert(c[j] == b[j + 1]);
        }
        assert(i - 1 < c.len() ==> c[i - 1] == b[i]);
        lemma_find_nul_at(c, i - 1);
    }
}

/// Frame codec over a NUL delimiter.
pub struct NullDelimitedCodec;

impl NullDelimitedCodec {
    /// Create the codec.
    pub fn new() -> Self {
        NullDelimitedCodec
    }

    /// Split one frame off the front of a buffer.  When the buffer holds a
    /// NUL, the bytes before the first NUL are the frame and the bytes
    /// after it remain; without a NUL more input is needed.
    pub fn decode(&self, buffer: &[u8]) -> (r: Option<(Vec<u8>, Vec<u8>)>)
        ensures
            r is Some <==> spec_find_nul(buffer@) is Some,
            r matches Some((frame, rest)) ==> spec_find_nul(buffer@) matches Some(p) && {
                &&& frame@ == buffer@.take(p)
                &&& rest@ == buffer@.skip(p + 1)
            },
    {
        let mut i: usize = 0;
        while i < buffer.len()
            invariant
                0 <= i <= buffer@.len(),
                forall|j: int| 0 <= j < i ==> #[trigger] buffer@[j] != 0,
            decreases buffer@.len() - i,
        {
            if buffer[i] == 0 {
                proof {
                    lemma_find_nul_at(buffer@, i as int);
                }
                let mut frame: Vec<u8> = Vec::new();
                extend_bytes(&mut frame, vstd::slice::slice_subrange(buffer, 0, i));
                let mut rest: Vec<u8> = Vec::new();
                extend_bytes(&mut rest, vstd::slice::slice_subrange(buffer, i + 1, buffer.len()));
                proof {
                    assert(frame@ =~= buffer@.take(i as int));
                    assert(rest@ =~= buffer@.skip(i + 1));
                }
                return Some((frame, rest));
            }
            i = i + 1;
        }
        proof {
            lemma_find_nul_at(buffer@, i as int);
        }
        None
    }

    /// Encode a frame: the bytes followed by one NUL delimiter.
    pub fn encode(&self, item: &[u8]) -> (r: Vec<u8>)
        ensures
            r@ == item@.push(0u8),
    {
        let mut r: Vec<u8> = Vec::new();
        extend_bytes(&mut r, item);
        r.push(0);
        proof {
            assert(r@ =~= item@.push(0u8));
        }
        r
    }
}

impl Default for NullDelimitedCodec {
    /// The codec.
    fn default() -> Self {
        Self::new()
    }
}

} // verus!
