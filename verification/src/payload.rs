//! The opaque, fixed-capacity payload blob carried inside a record.

use vstd::prelude::*;
use crate::bytes::{bytes_eq, copy_bytes, zero_bytes};

verus! {

/// Application-defined opaque data of a record. The network parameters fix
/// its width; a payload is *empty* when every byte is zero.
#[derive(Debug)]
pub struct Payload {
    /// The payload bytes; always exactly the network's payload width.
    pub bytes: Vec<u8>,
}

impl View for Payload {
    type V = Seq<u8>;

    open spec fn view(&self) -> Seq<u8> {
        self.bytes@
    }
}

/// Whether a payload byte string is empty, i.e. all zeroes.
pub open spec fn spec_payload_is_empty(s: Seq<u8>) -> bool {
    forall|i: int| 0 <= i < s.len() ==> s[i] == 0u8
}

impl Payload {
    /// The empty (all-zero) payload of width `size`.
    pub fn empty(size: usize) -> (r: Payload)
        ensures
            r@.len() == size,
            spec_payload_is_empty(r@),
    {
        Payload { bytes: zero_bytes(size) }
    }

    /// A payload holding a copy of `bytes`.
    pub fn from_bytes_le(bytes: &Vec<u8>) -> (r: Payload)
        ensures
            r@ == bytes@,
    {
        Payload { bytes: copy_bytes(bytes) }
    }

    /// The payload bytes.
    pub fn as_bytes(&self) -> (r: &Vec<u8>)
        ensures
            r@ == self@,
    {
        &self.bytes
    }

    /// The payload width in bytes.
    pub fn size(&self) -> (r: usize)
        ensures
            r == self@.len(),
    {
        self.bytes.len()
    }

    /// Whether every payload byte is zero.
    pub fn is_empty(&self) -> (r: bool)
        ensures
            r == spec_payload_is_empty(self@),
    {
        let mut i: usize = 0;
        while i < self.bytes.len()
            invariant
                i <= self.bytes.len(),
                forall|j: int| 0 <= j < i ==> self.bytes@[j] == 0u8,
            decreases self.bytes.len() - i,
        {
            if self.bytes[i] != 0 {
                return false;
            }
            i = i + 1;
        }
        true
    }
}

impl Clone for Payload {
    /// Clones the payload, preserving its bytes.
    fn clone(&self) -> (r: Payload)
        ensures
            r@ == self@,
    {
        Payload { bytes: copy_bytes(&self.bytes) }
    }
}

impl PartialEq for Payload {
    fn eq(&self, other: &Payload) -> (r: bool) {
        bytes_eq(&self.bytes, &other.bytes)
    }
}

impl vstd::std_specs::cmp::PartialEqSpecImpl for Payload {
    open spec fn obeys_eq_spec() -> bool {
        true
    }

    open spec fn eq_spec(&self, other: &Payload) -> bool {
        self@ == other@
    }
}

impl Eq for Payload {

}

} // verus!
