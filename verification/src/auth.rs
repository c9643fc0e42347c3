//! Comparison of secrets.

use vstd::prelude::*;

verus! {

/// Compares two byte strings without stopping at the first difference.
///
/// The running time depends on the lengths alone, so a peer that guesses a
/// token learns nothing from how long the answer takes.
pub fn constant_time_eq(a: &[u8], b: &[u8]) -> (equal: bool)
    ensures
        equal == (a@ == b@),
{
    if a.len() != b.len() {
        return false;
    }
    let mut diff: u8 = 0;
    let mut i: usize = 0;
    assert(a@.subrange(0, 0) == b@.subrange(0, 0));
    while i < a.len()
        invariant
            a.len() == b.len(),
            i <= a.len(),
            diff == 0 <==> a@.subrange(0, i as int) == b@.subrange(0, i as int),
        decreases a.len() - i,
    {
        let x: u8 = a[i];
        let y: u8 = b[i];
        let next: u8 = diff | (x ^ y);
        proof {
            assert((diff | (x ^ y)) == 0 <==> (diff == 0 && x == y)) by (bit_vector);
            let ghost a0 = a@.subrange(0, i as int);
            let ghost b0 = b@.subrange(0, i as int);
            let ghost a1 = a@.subrange(0, i + 1);
            let ghost b1 = b@.subrange(0, i + 1);
            assert(a1 == a0.push(x));
            assert(b1 == b0.push(y));
            if a1 == b1 {
                assert(a0 == a1.subrange(0, i as int));
                assert(b0 == b1.subrange(0, i as int));
                assert(a1[i as int] == b1[i as int]);
            }
        }
        diff = next;
        i = i + 1;
    }
    proof {
        assert(a@.subrange(0, i as int) == a@);
        assert(b@.subrange(0, i as int) == b@);
    }
    diff == 0
}

} // verus!
