//! Account addresses as plain 32-byte values.

use vstd::prelude::*;

verus! {

/// A 32-byte account address, the identifier of every on-chain entity
/// (asset mints, holding accounts, programs, derived authorities).
#[derive(Clone, Copy, Debug, PartialEq, Eq)]
pub struct Address {
    pub bytes: [u8; 32],
}


/// Compares two addresses byte for byte.
pub fn address_eq(a: &Address, b: &Address) -> (r: bool)
    ensures
        r == (a.bytes@ == b.bytes@),
{
    let mut i: usize = 0;
    while i < 32
        invariant
            0 <= i <= 32,
            forall|j: int| 0 <= j < i ==> a.bytes@[j] == b.bytes@[j],
        decreases 32 - i,
    {
        if a.bytes[i] != b.bytes[i] {
            assert(a.bytes@[i as int] != b.bytes@[i as int]);
            return false;
        }
        i = i + 1;
    }
    proof {
        assert(a.bytes@ =~= b.bytes@);
    }
    true
}

/// Copies an address into an owned byte vector (used to build derivation seeds).
pub fn address_to_vec(a: &Address) -> (v: Vec<u8>)
    ensures
        v@ == a.bytes@,
{
    vstd::slice::slice_to_vec(a.bytes.as_slice())
}

} // verus!
