//! Small verified operations on byte buffers.
use vstd::prelude::*;

verus! {

/// `prefix` is the start of `buf`.
pub open spec fn is_prefix(prefix: Seq<u8>, buf: Seq<u8>) -> bool {
    prefix.len() <= buf.len() && buf.subrange(0, prefix.len() as int) == prefix
}

/// Whether `buf` begins with `prefix`.
pub fn starts_with(buf: &[u8], prefix: &[u8]) -> (r: bool)
    ensures
        r == is_prefix(prefix@, buf@),
{
    if prefix.len() > buf.len() {
        return false;
    }
    let mut i: usize = 0;
    while i < prefix.len()
        invariant
            i <= prefix@.len() <= buf@.len(),
            forall|k: int| 0 <= k < i ==> buf@[k] == prefix@[k],
        decreases prefix@.len() - i,
    {
        if buf[i] != prefix[i] {
            assert(buf@.subrange(0, prefix@.len() as int)[i as int] != prefix@[i as int]);
            return false;
        }
        i = i + 1;
    }
    assert(buf@.subrange(0, prefix@.len() as int) =~= prefix@);
    true
}

/// Appends every byte of `b` to `out`.
pub fn push_all(out: &mut Vec<u8>, b: &[u8])
    ensures
        final(out)@ == old(out)@ + b@,
{
    let mut i: usize = 0;
    while i < b.len()
        invariant
            i <= b@.len(),
            out@ == old(out)@ + b@.subrange(0, i as int),
        decreases b@.len() - i,
    {
        out.push(b[i]);
        i = i + 1;
        assert(out@ =~= old(out)@ + b@.subrange(0, i as int));
    }
    assert(b@.subrange(0, b@.len() as int) =~= b@);
}

} // verus!
