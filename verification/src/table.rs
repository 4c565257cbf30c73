use vstd::prelude::*;
use crate::text::str_eq;

verus! {

/// The value of the first entry whose key is `key`, if any.
pub open spec fn assoc<V>(entries: Seq<(Seq<char>, V)>, key: Seq<char>) -> Option<V>
    decreases entries.len(),
{
    if entries.len() == 0 {
        None
    } else if entries[0].0 == key {
        Some(entries[0].1)
    } else {
        assoc(entries.drop_first(), key)
    }
}

/// A keyed table as a sequence of key/value pairs, keys as character
/// sequences and values as their views.
pub open spec fn table_view<V: View>(entries: Seq<(String, V)>) -> Seq<(Seq<char>, V::V)> {
    entries.map_values(|e: (String, V)| (e.0@, e.1@))
}

/// When the first `i` entries miss `key` and entry `i` hits it, `assoc`
/// returns entry `i`'s value.
pub proof fn lemma_assoc_found<V>(entries: Seq<(Seq<char>, V)>, key: Seq<char>, i: int)
    requires
        0 <= i < entries.len(),
        entries[i].0 == key,
        forall|j: int| 0 <= j < i ==> entries[j].0 != key,
    ensures
        assoc(entries, key) == Some(entries[i].1),
    decreases i,
{
    if i == 0 {
    } else {
        assert(entries.drop_first()[i - 1] == entries[i]);
        assert(forall|j: int| 0 <= j < i - 1 ==> entries.drop_first()[j] == entries[j + 1]);
        lemma_assoc_found(entries.drop_first(), key, i - 1);
    }
}

/// When no entry's key is `key`, `assoc` finds nothing.
pub proof fn lemma_assoc_absent<V>(entries: Seq<(Seq<char>, V)>, key: Seq<char>)
    requires
        forall|j: int| 0 <= j < entries.len() ==> entries[j].0 != key,
    ensures
        assoc(entries, key) is None,
    decreases entries.len(),
{
    if entries.len() > 0 {
        assert(forall|j: int| 0 <= j < entries.len() - 1
            ==> entries.drop_first()[j] == entries[j + 1]);
        lemma_assoc_absent(entries.drop_first(), key);
    }
}

/// Index of the first entry whose key is `key`, if any.
pub(crate) fn find_entry<V: View>(entries: &Vec<(String, V)>, key: &str) -> (r: Option<usize>)
    ensures
        match r {
            Some(i) => {
                &&& i < entries@.len()
                &&& assoc(table_view(entries@), key@) == Some(entries@[i as int].1@)
                &&& entries@[i as int].0@ == key@
            },
            None => assoc(table_view(entries@), key@) is None,
        },
{
    let ghost tv = table_view(entries@);
    proof {
        assert(tv.len() == entries@.len());
    }
    let mut i: usize = 0;
    while i < entries.len()
        invariant
            0 <= i <= entries@.len(),
            tv == table_view(entries@),
            tv.len() == entries@.len(),
            forall|j: int| 0 <= j < entries@.len() ==> tv[j] == (entries@[j].0@, entries@[j].1@),
            forall|j: int| 0 <= j < i ==> entries@[j].0@ != key@,
        decreases entries@.len() - i,
    {
        if str_eq(entries[i].0.as_str(), key) {
            proof {
                assert(forall|j: int| 0 <= j < i ==> tv[j].0 != key@);
                lemma_assoc_found(tv, key@, i as int);
            }
            return Some(i);
        }
        i += 1;
    }
    proof {
        assert(forall|j: int| 0 <= j < tv.len() ==> tv[j].0 != key@);
        lemma_assoc_absent(tv, key@);
    }
    None
}

} // verus!
