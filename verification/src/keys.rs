//! Account identities. The host environment addresses every record by an
//! opaque 32-byte key; the core only stores and compares such keys.

use vstd::prelude::*;

verus! {

/// Opaque 32-byte account identity.
pub type Pubkey = [u8; 32];

/// Byte-for-byte equality of two account keys.
pub fn key_eq(a: &Pubkey, b: &Pubkey) -> (r: bool)
    ensures
        r <==> a@ == b@,
{
    let mut i: usize = 0;
    while i < 32
        invariant
            i <= 32,
            forall|k: int| 0 <= k < i ==> a@[k] == b@[k],
        decreases 32 - i,
    {
        if a[i] != b[i] {
            return false;
        }
        i += 1;
    }
    assert(a@ =~= b@);
    true
}

} // verus!
