//! The key-range utility: the lexicographic prefix-end bound of a byte key,
//! used by range scans as an exclusive upper bound.

use vstd::pervasive::VecAdditionalExecFns;
use vstd::prelude::*;

verus! {

/// The prefix-end of a key: scanning from the last byte backward, the first
/// byte below `0xFF` is incremented and everything after it is cut; a single
/// zero byte when every byte is `0xFF` (no such bound exists).
pub open spec fn prefix_end(s: Seq<u8>) -> Seq<u8>
    decreases s.len(),
{
    if s.len() == 0 {
        seq![0u8]
    } else if s.last() < 255 {
        s.update(s.len() - 1, (s.last() + 1) as u8)
    } else {
        prefix_end(s.drop_last())
    }
}

/// Computes the prefix-end key of `key`, exactly as [`prefix_end`] states it.
pub fn get_prefix_end_key(key: &[u8]) -> (r: Vec<u8>)
    ensures
        r@ == prefix_end(key@),
{
    let mut i: usize = key.len();
    proof {
        assert(key@.subrange(0, i as int) =~= key@);
    }
    while i > 0
        invariant
            i <= key@.len(),
            prefix_end(key@) == prefix_end(key@.subrange(0, i as int)),
        decreases i,
    {
        let b = key[i - 1];
        if b < 255 {
            let mut end = copy_prefix(key, i);
            end.set(i - 1, b + 1);
            proof {
                assert(key@.subrange(0, i as int).last() == b);
                assert(end@ =~= prefix_end(key@.subrange(0, i as int)));
            }
            return end;
        }
        proof {
            assert(key@.subrange(0, i as int).drop_last() =~= key@.subrange(0, i as int - 1));
        }
        i = i - 1;
    }
    proof {
        assert(key@.subrange(0, 0).len() == 0);
    }
    let mut r: Vec<u8> = Vec::new();
    r.push(0);
    proof {
        assert(r@ =~= prefix_end(key@));
    }
    r
}

/// An owned copy of the first `n` bytes of `key`.
fn copy_prefix(key: &[u8], n: usize) -> (r: Vec<u8>)
    requires
        n <= key@.len(),
    ensures
        r@ == key@.subrange(0, n as int),
{
    let mut r: Vec<u8> = Vec::new();
    let mut i: usize = 0;
    while i < n
        invariant
            i <= n,
            n <= key@.len(),
            r@ == key@.subrange(0, i as int),
        decreases n - i,
    {
        r.push(key[i]);
        i = i + 1;
        proof {
            assert(r@ =~= key@.subrange(0, i as int));
        }
    }
    r
}

} // verus!
