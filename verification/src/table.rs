//! First-match association lookup over string-keyed entries, shared by the
//! in-memory environment and filesystem doubles: the entry nearest the front
//! shadows later entries with the same key.

use vstd::prelude::*;

verus! {

/// The value of the first entry at or after `i` whose key reads `key`.
pub open spec fn lookup_from<T>(entries: Seq<(String, T)>, key: Seq<char>, i: int) -> Option<T>
    decreases entries.len() - i,
{
    if i < 0 || i >= entries.len() {
        None
    } else if entries[i].0@ == key {
        Some(entries[i].1)
    } else {
        lookup_from(entries, key, i + 1)
    }
}

/// The value of the first entry whose key reads `key`.
pub open spec fn lookup<T>(entries: Seq<(String, T)>, key: Seq<char>) -> Option<T> {
    lookup_from(entries, key, 0)
}

/// Prepending an entry shifts every lookup that starts past it.
pub proof fn lemma_lookup_prepend<T>(
    e: (String, T),
    entries: Seq<(String, T)>,
    key: Seq<char>,
    i: int,
)
    requires
        0 <= i <= entries.len(),
    ensures
        lookup_from(entries.insert(0, e), key, i + 1) == lookup_from(entries, key, i),
    decreases entries.len() - i,
{
    let shifted = entries.insert(0, e);
    if i < entries.len() {
        assert(shifted[i + 1] == entries[i]);
        lemma_lookup_prepend(e, entries, key, i + 1);
    }
}

} // verus!
