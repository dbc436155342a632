//! Small tables of named texts, kept as a list of entries in which a
//! later entry of a key overrides an earlier one.

use crate::text::same_text;
use vstd::prelude::*;

verus! {

/// The value that a table holds for a key: that of the last entry with
/// the key, if there is one.
pub open spec fn lookup(entries: Seq<(String, String)>, key: Seq<char>) -> Option<Seq<char>>
    decreases entries.len(),
{
    if entries.len() == 0 {
        None
    } else if entries.last().0@ == key {
        Some(entries.last().1@)
    } else {
        lookup(entries.drop_last(), key)
    }
}

/// `lookup` in a table that got one more entry.
pub proof fn lemma_lookup_push(entries: Seq<(String, String)>, entry: (String, String), key: Seq<char>)
    ensures
        lookup(entries.push(entry), key) == if entry.0@ == key {
            Some(entry.1@)
        } else {
            lookup(entries, key)
        },
{
    assert(entries.push(entry).drop_last() =~= entries);
}

/// A table holds nothing for a key exactly when no entry has the key.
pub proof fn lemma_lookup_none(entries: Seq<(String, String)>, key: Seq<char>)
    ensures
        lookup(entries, key) is None <==> forall|a: int|
            0 <= a < entries.len() ==> (#[trigger] entries[a]).0@ != key,
    decreases entries.len(),
{
    if entries.len() > 0 {
        lemma_lookup_none(entries.drop_last(), key);
        if entries.last().0@ != key {
            if lookup(entries, key) is None {
                assert forall|a: int| 0 <= a < entries.len() implies (#[trigger] entries[a]).0@
                    != key by {
                    if a < entries.len() - 1 {
                        assert(entries.drop_last()[a] == entries[a]);
                    }
                }
            } else {
                let a = choose|a: int|
                    0 <= a < entries.drop_last().len() && (#[trigger] entries.drop_last()[a]).0@
                        == key;
                assert(entries[a].0@ == key);
            }
        }
    }
}

/// Finds the entry that decides the value of `key`: the last with that
/// key.
pub fn find_in(entries: &Vec<(String, String)>, key: &str) -> (r: Option<usize>)
    ensures
        match r {
            Some(i) => i < entries@.len() && entries@[i as int].0@ == key@ && lookup(
                entries@,
                key@,
            ) == Some(entries@[i as int].1@),
            None => lookup(entries@, key@) is None,
        },
{
    let mut i: usize = entries.len();
    assert(entries@.take(i as int) =~= entries@);
    while i > 0
        invariant
            i <= entries.len(),
            lookup(entries@, key@) == lookup(entries@.take(i as int), key@),
        decreases i,
    {
        assert(entries@.take(i as int).drop_last() =~= entries@.take(i - 1));
        assert(entries@.take(i as int).last() == entries@[i - 1]);
        if same_text(entries[i - 1].0.as_str(), key) {
            return Some(i - 1);
        }
        i = i - 1;
    }
    None
}

/// The views of pairs of texts.
pub open spec fn pairs_view(pairs: Seq<(String, String)>) -> Seq<(Seq<char>, Seq<char>)> {
    pairs.map_values(|p: (String, String)| (p.0@, p.1@))
}

/// The value that a table of texts holds for a key: that of the last
/// entry with the key, if there is one.
pub open spec fn lookup_text(entries: Seq<(Seq<char>, Seq<char>)>, key: Seq<char>) -> Option<
    Seq<char>,
>
    decreases entries.len(),
{
    if entries.len() == 0 {
        None
    } else if entries.last().0 == key {
        Some(entries.last().1)
    } else {
        lookup_text(entries.drop_last(), key)
    }
}

/// A table holds for a key what its view holds.
pub proof fn lemma_lookup_view(entries: Seq<(String, String)>, key: Seq<char>)
    ensures
        lookup(entries, key) == lookup_text(pairs_view(entries), key),
    decreases entries.len(),
{
    if entries.len() > 0 {
        assert(pairs_view(entries).drop_last() =~= pairs_view(entries.drop_last()));
        lemma_lookup_view(entries.drop_last(), key);
    }
}

} // verus!
