//! Identities of signers and records.
use vstd::prelude::*;
use vstd::std_specs::cmp::PartialEqSpecImpl;

verus! {

/// A 32-byte identity: a signer, or the place where a record is kept.
#[derive(Debug, Clone, Copy, Eq)]
pub struct Address {
    pub bytes: [u8; 32],
}

/// Thirty-two bytes, all zero.
pub open spec fn zero_bytes() -> [u8; 32] {
    vstd::array::spec_array_fill_for_copy_type::<u8, 32>(0u8)
}

impl PartialEq for Address {
    fn eq(&self, other: &Address) -> (same: bool) {
        let mut i: usize = 0;
        while i < 32
            invariant
                i <= 32,
                forall|j: int| 0 <= j < i ==> self.bytes[j] == other.bytes[j],
            decreases 32 - i,
        {
            if self.bytes[i] != other.bytes[i] {
                return false;
            }
            i += 1;
        }
        assert(self.bytes =~= other.bytes);
        true
    }
}

impl PartialEqSpecImpl for Address {
    open spec fn obeys_eq_spec() -> bool {
        true
    }

    open spec fn eq_spec(&self, other: &Address) -> bool {
        *self == *other
    }
}

impl Address {
    /// The identity whose bytes are all zero: nobody.
    pub open spec fn spec_zero() -> Address {
        Address { bytes: zero_bytes() }
    }

    /// The identity whose bytes are all zero: nobody.
    pub fn zero() -> (a: Address)
        ensures
            a == Address::spec_zero(),
            forall|i: int| 0 <= i < 32 ==> a.bytes[i] == 0,
    {
        Address { bytes: [0u8; 32] }
    }
}

} // verus!
