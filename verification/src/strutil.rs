//! Small verified helpers on string slices.

use vstd::prelude::*;
use vstd::string::StrSliceExecFns;

verus! {

/// Character-wise equality of two string slices.
pub fn str_eq(a: &str, b: &str) -> (r: bool)
    ensures
        r == (a@ == b@),
{
    let la = a.unicode_len();
    let lb = b.unicode_len();
    if la != lb {
        return false;
    }
    let mut j: usize = 0;
    while j < la
        invariant
            la == a@.len(),
            lb == b@.len(),
            la == lb,
            j <= la,
            forall|i: int| 0 <= i < j ==> a@[i] == b@[i],
        decreases la - j,
    {
        if a.get_char(j) != b.get_char(j) {
            return false;
        }
        j += 1;
    }
    proof {
        assert(a@ =~= b@);
    }
    true
}

} // verus!
