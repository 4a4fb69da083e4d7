//! The path registry: a prefix-keyed map from a checked-out path to the
//! remote identifier (inode) the daemon assigned to it.
//!
//! The executable store is `radix_trie::Trie<String, u64>`, used through a
//! small trusted surface. Its mathematical content is the map given by
//! [`trie_contents`], over which every contract of this crate speaks. A path
//! is *covered* when the registry holds an entry for it or for some prefix of
//! it, so a checked-out directory implicitly covers its descendants.

use vstd::prelude::*;
use radix_trie::TrieCommon;

verus! {

#[verifier::external_type_specification]
#[verifier::external_body]
#[verifier::reject_recursive_types(K)]
#[verifier::reject_recursive_types(V)]
pub struct ExTrie<K, V>(radix_trie::Trie<K, V>);

/// The entries a trie holds, as a map from the key's characters to its value.
pub uninterp spec fn trie_contents(t: radix_trie::Trie<String, u64>) -> Map<Seq<char>, u64>;

/// The registry with no entries.
pub open spec fn empty_registry() -> Map<Seq<char>, u64> {
    Map::empty()
}

/// Some registered path is a prefix of `p` (`p` itself included).
pub open spec fn covers(m: Map<Seq<char>, u64>, p: Seq<char>) -> bool {
    exists|k: Seq<char>| #[trigger] m.contains_key(k) && k.is_prefix_of(p)
}

/// `k` is the longest registered prefix of `p`: the entry ancestor lookup resolves.
pub open spec fn is_longest_prefix_entry(m: Map<Seq<char>, u64>, p: Seq<char>, k: Seq<char>) -> bool {
    &&& m.contains_key(k)
    &&& k.is_prefix_of(p)
    &&& forall|k2: Seq<char>| #[trigger] m.contains_key(k2) && k2.is_prefix_of(p) ==> k2.len() <= k.len()
}

/// Two longest registered prefixes of the same path are the same key.
pub proof fn lemma_longest_prefix_unique(m: Map<Seq<char>, u64>, p: Seq<char>, k1: Seq<char>, k2: Seq<char>)
    requires
        is_longest_prefix_entry(m, p, k1),
        is_longest_prefix_entry(m, p, k2),
    ensures
        k1 == k2,
{
    assert(k1.len() <= k2.len());
    assert(k2.len() <= k1.len());
    assert(k1 =~= k2);
}

/// Relies on radix_trie::Trie::new: the new trie holds no entries.
#[verifier::external_body]
pub(crate) fn trie_new() -> (t: radix_trie::Trie<String, u64>)
    ensures
        trie_contents(t) == empty_registry(),
{
    radix_trie::Trie::new()
}

/// Relies on radix_trie::Trie::insert: maps the key to the value, replacing
/// the value of a key that is already present.
#[verifier::external_body]
pub(crate) fn trie_insert(t: &mut radix_trie::Trie<String, u64>, key: String, value: u64)
    ensures
        trie_contents(*final(t)) == trie_contents(*old(t)).insert(key@, value),
{
    t.insert(key, value);
}

/// Relies on radix_trie::Trie::remove: deletes the entry for exactly this key;
/// removing an absent key changes nothing.
#[verifier::external_body]
pub(crate) fn trie_remove(t: &mut radix_trie::Trie<String, u64>, key: &String)
    ensures
        trie_contents(*final(t)) == trie_contents(*old(t)).remove(key@),
{
    t.remove(key.as_str());
}

/// Relies on radix_trie::Trie::get_ancestor (and TrieCommon::key / value):
/// the node it returns holds the longest registered key that is a prefix of
/// the given key, together with that key's value. String keys are compared by
/// their UTF-8 bytes, and for valid strings a byte prefix is a character
/// prefix, so the contract speaks of character sequences.
#[verifier::external_body]
pub(crate) fn trie_get_ancestor_entry(t: &radix_trie::Trie<String, u64>, key: &String) -> (r: Option<(String, u64)>)
    ensures
        r is Some <==> covers(trie_contents(*t), key@),
        match r {
            Some(kv) => is_longest_prefix_entry(trie_contents(*t), key@, kv.0@)
                && trie_contents(*t)[kv.0@] == kv.1,
            None => !covers(trie_contents(*t), key@),
        },
{
    t.get_ancestor(key.as_str()).and_then(|node| match (node.key(), node.value()) {
        (Some(k), Some(v)) => Some((k.clone(), *v)),
        _ => None,
    })
}

/// Relies on radix_trie::Trie::iter (via TrieCommon): it yields every stored
/// key-value pair exactly once, in an unspecified order.
#[verifier::external_body]
pub(crate) fn trie_pairs(t: &radix_trie::Trie<String, u64>) -> (r: Vec<(String, u64)>)
    ensures
        forall|i: int| 0 <= i < r@.len() ==> trie_contents(*t).contains_key((#[trigger] r@[i]).0@),
        forall|i: int| 0 <= i < r@.len() ==> trie_contents(*t)[(#[trigger] r@[i]).0@] == r@[i].1,
        forall|k: Seq<char>| #[trigger] trie_contents(*t).contains_key(k)
            ==> exists|i: int| 0 <= i < r@.len() && (#[trigger] r@[i]).0@ == k,
        forall|i: int, j: int| 0 <= i < j < r@.len() ==> r@[i].0@ != r@[j].0@,
{
    t.iter().map(|(k, v)| (k.clone(), *v)).collect()
}

} // verus!
