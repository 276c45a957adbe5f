//! Searching a byte sequence for the last occurrence of a byte.

use vstd::prelude::*;

verus! {

/// The index of the last occurrence of `b` in `s`, or `-1` if `b` does not
/// occur in `s`.
pub open spec fn last_index_of(s: Seq<u8>, b: u8) -> int
    decreases s.len(),
{
    if s.len() == 0 {
        -1
    } else if s[s.len() - 1] == b {
        s.len() - 1
    } else {
        last_index_of(s.drop_last(), b)
    }
}

/// The last index is always within the sequence, or `-1`.
pub proof fn lemma_last_index_of_bounds(s: Seq<u8>, b: u8)
    ensures
        -1 <= last_index_of(s, b) <= s.len() - 1,
    decreases s.len(),
{
    if s.len() == 0 {
    } else if s[s.len() - 1] == b {
    } else {
        lemma_last_index_of_bounds(s.drop_last(), b);
    }
}

/// How the last index behaves on a suffix of `s`: occurrences at or after the
/// cut keep their position shifted by the cut, and a last occurrence before
/// the cut leaves the suffix without any occurrence.
pub proof fn lemma_last_index_of_suffix(s: Seq<u8>, b: u8, k: int)
    requires
        0 <= k <= s.len(),
    ensures
        last_index_of(s, b) >= k ==> last_index_of(s.subrange(k, s.len() as int), b)
            == last_index_of(s, b) - k,
        last_index_of(s, b) < k ==> last_index_of(s.subrange(k, s.len() as int), b) == -1,
    decreases s.len(),
{
    let sub = s.subrange(k, s.len() as int);
    if s.len() == k {
        assert(sub.len() == 0);
        lemma_last_index_of_bounds(s, b);
    } else {
        assert(sub.len() == s.len() - k);
        assert(sub[sub.len() - 1] == s[s.len() - 1]);
        if s[s.len() - 1] == b {
        } else {
            let t = s.drop_last();
            lemma_last_index_of_suffix(t, b, k);
            assert(t.subrange(k, t.len() as int) =~= sub.drop_last());
        }
    }
}

/// Returns the index of the last occurrence of `b` in `s`, or `None` if `b`
/// does not occur in `s`.
pub fn find_last(s: &[u8], b: u8) -> (r: Option<usize>)
    ensures
        match r {
            Option::Some(i) => i < s@.len() && last_index_of(s@, b) == i as int,
            Option::None => last_index_of(s@, b) == -1,
        },
{
    let mut i: usize = s.len();
    proof {
        assert(s@.subrange(0, s@.len() as int) =~= s@);
    }
    while i > 0
        invariant
            i as int <= s@.len(),
            last_index_of(s@, b) == last_index_of(s@.subrange(0, i as int), b),
        decreases i,
    {
        if s[i - 1] == b {
            proof {
                let sub = s@.subrange(0, i as int);
                assert(sub[sub.len() - 1] == s@[i - 1]);
            }
            return Some(i - 1);
        }
        proof {
            let sub = s@.subrange(0, i as int);
            assert(sub[sub.len() - 1] == s@[i - 1]);
            assert(sub.drop_last() =~= s@.subrange(0, i - 1));
        }
        i = i - 1;
    }
    proof {
        assert(s@.subrange(0, 0) =~= Seq::<u8>::empty());
    }
    None
}

} // verus!
