//! Deduplication of the canonical file paths that survive resolution: each
//! distinct path is kept once, in the order it was first seen.

use vstd::prelude::*;

verus! {

/// The views of a sequence of owned path strings.
pub open spec fn views_of(paths: Seq<String>) -> Seq<Seq<char>> {
    paths.map_values(|p: String| p@)
}

/// The distinct elements of `s`, each at the position of its first
/// occurrence.
pub open spec fn dedup_first_seen(s: Seq<Seq<char>>) -> Seq<Seq<char>>
    decreases s.len(),
{
    if s.len() == 0 {
        Seq::empty()
    } else {
        let prefix = dedup_first_seen(s.drop_last());
        if prefix.contains(s.last()) {
            prefix
        } else {
            prefix.push(s.last())
        }
    }
}

/// Whether one of the strings in `v` reads as `x` does.
fn contains_string(v: &Vec<String>, x: &String) -> (r: bool)
    ensures
        r == views_of(v@).contains(x@),
{
    let mut i: usize = 0;
    while i < v.len()
        invariant
            i <= v@.len(),
            forall|j: int| 0 <= j < i ==> views_of(v@)[j] != x@,
        decreases v@.len() - i,
    {
        if v[i].eq(x) {
            assert(views_of(v@)[i as int] == x@);
            return true;
        }
        i = i + 1;
    }
    false
}

/// Keeps the first occurrence of each distinct path and drops the rest,
/// preserving first-seen order.
pub fn dedup_paths(paths: &Vec<String>) -> (r: Vec<String>)
    ensures
        views_of(r@) == dedup_first_seen(views_of(paths@)),
{
    let mut out: Vec<String> = Vec::new();
    let mut i: usize = 0;
    while i < paths.len()
        invariant
            i <= paths@.len(),
            views_of(out@) == dedup_first_seen(views_of(paths@).subrange(0, i as int)),
        decreases paths@.len() - i,
    {
        let p = &paths[i];
        proof {
            assert(views_of(paths@).subrange(0, i as int + 1).drop_last() =~= views_of(
                paths@,
            ).subrange(0, i as int));
            assert(views_of(paths@).subrange(0, i as int + 1).last() == p@);
        }
        if !contains_string(&out, p) {
            out.push(p.clone());
            proof {
                assert(views_of(out@) =~= dedup_first_seen(
                    views_of(paths@).subrange(0, i as int),
                ).push(p@));
            }
        }
        i = i + 1;
    }
    proof {
        assert(views_of(paths@).subrange(0, paths@.len() as int) =~= views_of(paths@));
    }
    out
}

/// Deduplication leaves no duplicates: every path stands at most once in the
/// deduplicated list, so each file is hashed and reported exactly once.
pub proof fn lemma_dedup_no_duplicates(s: Seq<Seq<char>>)
    ensures
        dedup_first_seen(s).no_duplicates(),
    decreases s.len(),
{
    if s.len() == 0 {
    } else {
        lemma_dedup_no_duplicates(s.drop_last());
        let prefix = dedup_first_seen(s.drop_last());
        if !prefix.contains(s.last()) {
            assert forall|i: int, j: int|
                0 <= i < prefix.push(s.last()).len() && 0 <= j < prefix.push(s.last()).len() && i
                    != j implies prefix.push(s.last())[i] != prefix.push(s.last())[j] by {
                if i < prefix.len() && j < prefix.len() {
                } else if j == prefix.len() {
                    assert(prefix[i] != s.last()) by {
                        assert(!prefix.contains(s.last()));
                    }
                } else {
                    assert(prefix[j] != s.last()) by {
                        assert(!prefix.contains(s.last()));
                    }
                }
            }
        }
    }
}

/// Deduplication keeps exactly the paths that were given: a path stands in
/// the deduplicated list if and only if it stood among the arguments.
pub proof fn lemma_dedup_membership(s: Seq<Seq<char>>, x: Seq<char>)
    ensures
        dedup_first_seen(s).contains(x) <==> s.contains(x),
    decreases s.len(),
{
    if s.len() == 0 {
    } else {
        lemma_dedup_membership(s.drop_last(), x);
        let prefix = dedup_first_seen(s.drop_last());
        assert(s.contains(x) <==> (s.drop_last().contains(x) || s.last() == x)) by {
            if s.contains(x) {
                let k = choose|k: int| 0 <= k < s.len() && s[k] == x;
                if k < s.len() - 1 {
                    assert(s.drop_last()[k] == x);
                }
            }
            if s.drop_last().contains(x) {
                let k = choose|k: int| 0 <= k < s.drop_last().len() && s.drop_last()[k] == x;
                assert(s[k] == x);
            }
            if s.last() == x {
                assert(s[s.len() - 1] == x);
            }
        }
        if prefix.contains(s.last()) {
        } else {
            assert(dedup_first_seen(s) == prefix.push(s.last()));
            if prefix.contains(x) {
                let k = choose|k: int| 0 <= k < prefix.len() && prefix[k] == x;
                assert(prefix.push(s.last())[k] == x);
            }
            if s.last() == x {
                assert(prefix.push(s.last())[prefix.len() as int] == x);
            }
            if prefix.push(s.last()).contains(x) {
                let k = choose|k: int|
                    0 <= k < prefix.push(s.last()).len() && prefix.push(s.last())[k] == x;
                if k < prefix.len() {
                    assert(prefix[k] == x);
                }
            }
        }
    }
}

} // verus!
