//! Comparison of the fixed-width identifier fields.
//!
//! The identifiers of the protocol (VIN, EID, GID, logical addresses) are
//! opaque byte strings of a fixed width. The only operations this crate
//! performs on them are copying and comparing.

use vstd::prelude::*;

verus! {

/// Whether two fields of the same width hold the same bytes.
pub fn same_bytes<const N: usize>(a: &[u8; N], b: &[u8; N]) -> (equal: bool)
    ensures
        equal <==> a@ == b@,
{
    let mut i: usize = 0;
    while i < N
        invariant
            i <= N,
            forall|k: int| 0 <= k < i ==> a@[k] == b@[k],
        decreases N - i,
    {
        if a[i] != b[i] {
            return false;
        }
        i += 1;
    }
    assert(a@ =~= b@);
    true
}

} // verus!
