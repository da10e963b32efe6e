//! Typed payloads that know their own wire serialization.

use vstd::prelude::*;

verus! {

/// Trait for MID-specific response payload structures.  Implementors state
/// their exact byte serialization as a specification and prove that the
/// executable serializer produces it.
pub trait ResponseData {
    /// The exact bytes this payload serializes to.
    spec fn spec_serialized(&self) -> Seq<u8>;

    /// Serialize this payload into its wire bytes.
    fn serialize(&self) -> (r: Vec<u8>)
        ensures
            r@ == self.spec_serialized(),
    ;
}

/// An empty payload.
impl ResponseData for () {
    open spec fn spec_serialized(&self) -> Seq<u8> {
        Seq::empty()
    }

    fn serialize(&self) -> (r: Vec<u8>) {
        let r: Vec<u8> = Vec::new();
        proof {
            assert(r@ =~= self.spec_serialized());
        }
        r
    }
}

/// A raw byte payload, passed through unchanged.
impl ResponseData for Vec<u8> {
    open spec fn spec_serialized(&self) -> Seq<u8> {
        self@
    }

    fn serialize(&self) -> (r: Vec<u8>) {
        let mut r: Vec<u8> = Vec::new();
        let mut i: usize = 0;
        while i < self.len()
            invariant
                0 <= i <= self@.len(),
                r@ == self@.take(i as int),
            decreases self@.len() - i,
        {
            r.push(self[i]);
            proof {
                assert(r@ =~= self@.take(i + 1));
            }
            i = i + 1;
        }
        proof {
            assert(r@ =~= self@);
        }
        r
    }
}

} // verus!
