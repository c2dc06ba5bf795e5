use vstd::prelude::*;

verus! {

/// Byte-for-byte comparison of two byte strings; the result is exactly the
/// equality of their contents.  Equal-length inputs are always walked to the
/// end: a mismatch sets a flag instead of returning, so the comparison does
/// not stop early on a partial match.
pub fn bytes_eq(a: &[u8], b: &[u8]) -> (r: bool)
    ensures
        r == (a@ == b@),
{
    if a.len() != b.len() {
        assert(a@ != b@);
        return false;
    }
    let n = a.len();
    let mut differs = false;
    let mut i: usize = 0;
    while i < n
        invariant
            n == a@.len(),
            a@.len() == b@.len(),
            i <= n,
            !differs ==> forall|k: int| 0 <= k < i ==> a@[k] == b@[k],
            differs ==> a@ != b@,
        decreases n - i,
    {
        if a[i] != b[i] {
            proof {
                assert(a@ != b@);
            }
            differs = true;
        }
        i += 1;
    }
    proof {
        if !differs {
            assert(a@ =~= b@);
        }
    }
    !differs
}

} // verus!
