//! Small verified helpers on byte vectors.

use vstd::prelude::*;

verus! {

/// An owned copy of the bytes.
pub fn copy_bytes(v: &[u8]) -> (r: Vec<u8>)
    ensures
        r@ == v@,
{
    let mut r: Vec<u8> = Vec::new();
    r.extend_from_slice(v);
    proof {
        assert forall|i: int| 0 <= i < r@.len() implies r@[i] == v@[i] by {
            assert(vstd::pervasive::cloned::<u8>(v@[i], r@[i]));
        }
        assert(r@ =~= v@);
    }
    r
}

/// Appends `src` behind the bytes already in `dst`.
pub fn append_bytes(dst: &mut Vec<u8>, src: &[u8])
    ensures
        final(dst)@ == old(dst)@ + src@,
{
    let ghost before = dst@;
    dst.extend_from_slice(src);
    proof {
        assert forall|i: int| 0 <= i < dst@.len() implies dst@[i] == (before + src@)[i] by {
            if i >= before.len() {
                assert(vstd::pervasive::cloned::<u8>(src@[i - before.len()], dst@[i]));
            }
        }
        assert(dst@ =~= before + src@);
    }
}

/// True exactly when `v` begins with `prefix`.
pub fn starts_with(v: &[u8], prefix: &[u8]) -> (r: bool)
    ensures
        r <==> (v@.len() >= prefix@.len() && v@.subrange(0, prefix@.len() as int) == prefix@),
{
    if v.len() < prefix.len() {
        proof {
            assert(v@.len() < prefix@.len());
        }
        return false;
    }
    let mut i: usize = 0;
    while i < prefix.len()
        invariant
            0 <= i <= prefix@.len(),
            prefix@.len() <= v@.len(),
            forall|k: int| 0 <= k < i ==> v@[k] == prefix@[k],
        decreases prefix@.len() - i,
    {
        if v[i] != prefix[i] {
            proof {
                assert(v@.subrange(0, prefix@.len() as int)[i as int] == v@[i as int]);
            }
            return false;
        }
        i = i + 1;
    }
    proof {
        assert(v@.subrange(0, prefix@.len() as int) =~= prefix@);
    }
    true
}

} // verus!
