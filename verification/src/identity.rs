//! Identities: the 32-byte values that name an authority, a registry's place
//! in storage, and a question.

use vstd::prelude::*;

verus! {

/// The number of bytes in an identity.
pub const KEY_LEN: usize = 32;

/// Tells whether two identities are the same, byte for byte.
pub fn same_key(a: &[u8; 32], b: &[u8; 32]) -> (same: bool)
    ensures
        same <==> a@ == b@,
{
    let mut i: usize = 0;
    while i < KEY_LEN
        invariant
            i <= KEY_LEN,
            forall|j: int| 0 <= j < i ==> a@[j] == b@[j],
        decreases KEY_LEN - i,
    {
        if a[i] != b[i] {
            return false;
        }
        i += 1;
    }
    assert(a@ =~= b@);
    true
}

} // verus!
