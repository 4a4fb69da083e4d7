//! Properties the library promises across its operations, proved once and
//! for all over the registry model and the reconciliation merge.

use vstd::prelude::*;

use crate::api::MountInfo;
use crate::merge_mounts;
use crate::merge_one;
use crate::registry::covers;
use crate::registry::is_longest_prefix_entry;
use crate::registry::lemma_longest_prefix_unique;

verus! {

/// Every path is a prefix of itself, so a registered path always covers
/// itself.
pub proof fn lemma_prefix_self(p: Seq<char>)
    ensures
        p.is_prefix_of(p),
{
    assert(p.subrange(0, p.len() as int) =~= p);
}

/// Inserting an entry for a path makes the ancestor lookup on that exact path
/// resolve to that entry: the exact match takes precedence over any coarser
/// ancestor, whatever the registry held before.
pub proof fn lemma_exact_match_precedence(m: Map<Seq<char>, u64>, p: Seq<char>, i: u64)
    ensures
        is_longest_prefix_entry(m.insert(p, i), p, p),
        m.insert(p, i)[p] == i,
        forall|k: Seq<char>| is_longest_prefix_entry(m.insert(p, i), p, k) ==> k == p,
{
    lemma_prefix_self(p);
    let m1 = m.insert(p, i);
    assert(m1.contains_key(p));
    assert forall|k: Seq<char>| is_longest_prefix_entry(m1, p, k) implies k == p by {
        lemma_longest_prefix_unique(m1, p, k, p);
    }
}

/// Inserting an entry for a path and then removing it leaves the path not
/// checked out, provided no other registered entry is a prefix of it.
pub proof fn lemma_insert_remove_not_covered(m: Map<Seq<char>, u64>, p: Seq<char>, i: u64)
    requires
        forall|k: Seq<char>| #[trigger] m.contains_key(k) && k.is_prefix_of(p) ==> k == p,
    ensures
        !covers(m.insert(p, i).remove(p), p),
{
    let m2 = m.insert(p, i).remove(p);
    assert forall|k: Seq<char>| #[trigger] m2.contains_key(k) implies !k.is_prefix_of(p) by {
        assert(k != p);
        assert(m.contains_key(k));
    }
}

/// One merge step never drops or changes what is already registered.
pub proof fn lemma_merge_one_only_adds(m: Map<Seq<char>, u64>, mi: MountInfo)
    ensures
        m.submap_of(merge_one(m, mi)),
{
    if !covers(m, mi.path@) {
        lemma_prefix_self(mi.path@);
        assert(!m.contains_key(mi.path@));
    }
}

/// Reconciliation only adds: after merging any daemon-reported mount list,
/// the registry is a superset of what it was — every prior entry is still
/// there, with its value unchanged. Only an explicit restore or commit
/// deletes an entry, never a poll; and since being a submap is transitive,
/// the same holds across any sequence of reconciliation cycles.
pub proof fn lemma_reconcile_only_adds(m: Map<Seq<char>, u64>, s: Seq<MountInfo>)
    ensures
        m.submap_of(merge_mounts(m, s)),
    decreases s.len(),
{
    if s.len() > 0 {
        let m1 = merge_mounts(m, s.drop_last());
        let m2 = merge_mounts(m, s);
        lemma_reconcile_only_adds(m, s.drop_last());
        lemma_merge_one_only_adds(m1, s.last());
        assert forall|k: Seq<char>| #[trigger] m.dom().contains(k) implies m2.dom().contains(k)
            && m[k] == m2[k] by {
            assert(m1.dom().contains(k) && m[k] == m1[k]);
            assert(m2.dom().contains(k) && m1[k] == m2[k]);
        }
    }
}

/// A covered path stays covered when the registry grows.
pub proof fn lemma_covers_monotonic(m1: Map<Seq<char>, u64>, m2: Map<Seq<char>, u64>, p: Seq<char>)
    requires
        m1.submap_of(m2),
        covers(m1, p),
    ensures
        covers(m2, p),
{
    let k = choose|k: Seq<char>| #[trigger] m1.contains_key(k) && k.is_prefix_of(p);
    assert(m2.contains_key(k));
}

/// After a merge, every path the daemon reported is covered: it either
/// already was, or its own entry was inserted by the merge.
pub proof fn lemma_reconcile_covers_reported(m: Map<Seq<char>, u64>, s: Seq<MountInfo>)
    ensures
        forall|i: int| 0 <= i < s.len() ==> covers(merge_mounts(m, s), (#[trigger] s[i]).path@),
    decreases s.len(),
{
    if s.len() > 0 {
        let s0 = s.drop_last();
        let m1 = merge_mounts(m, s0);
        lemma_reconcile_covers_reported(m, s0);
        lemma_merge_one_only_adds(m1, s.last());
        assert forall|i: int| 0 <= i < s.len() implies covers(
            merge_mounts(m, s),
            (#[trigger] s[i]).path@,
        ) by {
            if i < s.len() - 1 {
                assert(s0[i] == s[i]);
                assert(covers(m1, s[i].path@));
                lemma_covers_monotonic(m1, merge_one(m1, s.last()), s[i].path@);
            } else {
                let p = s.last().path@;
                if covers(m1, p) {
                    lemma_covers_monotonic(m1, merge_one(m1, s.last()), p);
                } else {
                    lemma_prefix_self(p);
                    assert(merge_one(m1, s.last()).contains_key(p));
                }
            }
        }
    }
}

} // verus!
