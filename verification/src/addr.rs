//! Addresses of the host ledger's state objects.
//!
//! An address is 256 bits wide. The engine never interprets an address; it
//! only stores, compares and serializes the 32 raw bytes. The all-zero
//! address doubles as the "empty" marker (no winner yet, no oracle account
//! recorded) and is the address of the host's own value-transfer program, so
//! it never denotes an oracle.

use vstd::prelude::*;

verus! {

broadcast use vstd::array::group_array_axioms;

/// A 256-bit address of an addressable state object.
#[derive(Clone, Copy, Debug, PartialEq, Eq)]
pub struct Address {
    /// The raw bytes of the address.
    pub bytes: [u8; 32],
}

impl View for Address {
    type V = Seq<u8>;

    open spec fn view(&self) -> Seq<u8> {
        self.bytes@
    }
}

impl Address {
    /// The byte sequence of the all-zero address.
    pub open spec fn spec_zero() -> Seq<u8> {
        Seq::new(32, |i: int| 0u8)
    }

    /// Whether this is the all-zero address.
    pub open spec fn is_zero(self) -> bool {
        self@ == Self::spec_zero()
    }

    /// Wraps 32 raw bytes as an address.
    pub fn new(bytes: [u8; 32]) -> (a: Address)
        ensures
            a.bytes == bytes,
            a@ == bytes@,
    {
        Address { bytes }
    }

    /// The all-zero address.
    pub fn zeroed() -> (a: Address)
        ensures
            a.is_zero(),
    {
        let bytes: [u8; 32] = [0u8; 32];
        proof {
            assert(bytes@ =~= Self::spec_zero());
        }
        Address { bytes }
    }

    /// Byte-wise equality of two addresses.
    pub fn same(&self, other: &Address) -> (r: bool)
        ensures
            r == (self@ == other@),
    {
        let mut i: usize = 0;
        while i < 32
            invariant
                i <= 32,
                forall|j: int| 0 <= j < i ==> self.bytes@[j] == other.bytes@[j],
            decreases 32 - i,
        {
            if self.bytes[i] != other.bytes[i] {
                assert(self@[i as int] != other@[i as int]);
                return false;
            }
            i += 1;
        }
        proof {
            assert(self@ =~= other@);
        }
        true
    }

    /// Whether this address is the all-zero address.
    pub fn is_zeroed(&self) -> (r: bool)
        ensures
            r == self.is_zero(),
    {
        let z = Address::zeroed();
        self.same(&z)
    }
}

} // verus!
