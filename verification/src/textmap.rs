//! A map from texts.
use vstd::prelude::*;

verus! {

/// An entry of a map.
#[derive(Debug)]
pub struct TextEntry<T> {
    pub key: String,
    pub value: T,
}

/// A map from texts.
#[derive(Debug)]
pub struct TextMap<T> {
    entries: Vec<TextEntry<T>>,
}

/// The key is that of an entry.
pub open spec fn has_key<T>(entries: Seq<TextEntry<T>>, key: Seq<char>) -> bool {
    exists|i: int| 0 <= i < entries.len() && (#[trigger] entries[i]).key@ == key
}

/// The place of an entry with the key.
pub open spec fn key_index<T>(entries: Seq<TextEntry<T>>, key: Seq<char>) -> int {
    choose|i: int| 0 <= i < entries.len() && (#[trigger] entries[i]).key@ == key
}

/// No two entries have the same key.
pub open spec fn has_distinct_keys<T>(entries: Seq<TextEntry<T>>) -> bool {
    forall|i: int, j: int|
        0 <= i < j < entries.len() ==> (#[trigger] entries[i]).key@ != (#[trigger] entries[j]).key@
}

/// The map that the entries stand for.
pub open spec fn entry_map<T>(entries: Seq<TextEntry<T>>) -> Map<Seq<char>, T> {
    Map::new(
        |key: Seq<char>| has_key(entries, key),
        |key: Seq<char>| entries[key_index(entries, key)].value,
    )
}

impl<T> View for TextMap<T> {
    type V = Map<Seq<char>, T>;

    closed spec fn view(&self) -> Map<Seq<char>, T> {
        entry_map(self.entries@)
    }
}

fn position_of<T>(entries: &Vec<TextEntry<T>>, key: &str) -> (res: Option<usize>)
    requires
        has_distinct_keys(entries@),
    ensures
        match res {
            Some(i) => i < entries@.len() && entries@[i as int].key@ == key@ && key_index(
                entries@,
                key@,
            ) == i,
            None => !has_key(entries@, key@),
        },
{
    for i in 0..entries.len()
        invariant
            has_distinct_keys(entries@),
            forall|j: int| 0 <= j < i ==> (#[trigger] entries@[j]).key@ != key@,
    {
        if entries[i].key == key.to_owned() {
            assert(has_key(entries@, key@)) by {
                assert(entries@[i as int].key@ == key@);
            }
            return Some(i);
        }
    }
    None
}

impl<T> TextMap<T> {
    #[verifier::type_invariant]
    closed spec fn is_valid(self) -> bool {
        has_distinct_keys(self.entries@)
    }

    /// A map without entries.
    pub fn new() -> (res: TextMap<T>)
        ensures
            res@ == Map::<Seq<char>, T>::empty(),
    {
        let res = TextMap { entries: Vec::new() };
        assert(res@ =~= Map::<Seq<char>, T>::empty());
        res
    }

    /// Sets the value for a key. The value that the key had before is lost.
    pub fn insert(&mut self, key: String, value: T)
        ensures
            final(self)@ == old(self)@.insert(key@, value),
    {
        proof {
            use_type_invariant(&*self);
        }
        let mut entries: Vec<TextEntry<T>> = Vec::new();
        std::mem::swap(&mut entries, &mut self.entries);
        let ghost before = entries@;
        match position_of(&entries, key.as_str()) {
            Some(i) => {
                entries.set(i, TextEntry { key, value });
                proof {
                    entry_replaced(before, i as int, TextEntry { key, value });
                }
            },
            None => {
                entries.push(TextEntry { key, value });
                proof {
                    entry_added(before, TextEntry { key, value });
                }
            },
        }
        self.entries = entries;
    }

    /// The value for a key.
    pub fn get(&self, key: &str) -> (res: Option<&T>)
        ensures
            match res {
                Some(value) => self@.dom().contains(key@) && self@[key@] == *value,
                None => !self@.dom().contains(key@),
            },
    {
        proof {
            use_type_invariant(&*self);
        }
        match position_of(&self.entries, key) {
            Some(i) => Some(&self.entries[i].value),
            None => None,
        }
    }

    /// Gives the entries, each key once.
    pub fn into_entries(self) -> (res: Vec<TextEntry<T>>)
        ensures
            has_distinct_keys(res@),
            entry_map(res@) == self@,
    {
        proof {
            use_type_invariant(&self);
        }
        self.entries
    }
}

proof fn index_is_unique<T>(entries: Seq<TextEntry<T>>, i: int)
    requires
        has_distinct_keys(entries),
        0 <= i < entries.len(),
    ensures
        has_key(entries, entries[i].key@),
        key_index(entries, entries[i].key@) == i,
{
    let k = key_index(entries, entries[i].key@);
    assert(0 <= k < entries.len() && entries[k].key@ == entries[i].key@);
}

proof fn entry_replaced<T>(before: Seq<TextEntry<T>>, i: int, entry: TextEntry<T>)
    requires
        has_distinct_keys(before),
        0 <= i < before.len(),
        before[i].key@ == entry.key@,
    ensures
        has_distinct_keys(before.update(i, entry)),
        entry_map(before.update(i, entry)) == entry_map(before).insert(entry.key@, entry.value),
{
    let after = before.update(i, entry);
    assert forall|k: int| 0 <= k < after.len() implies (#[trigger] after[k]).key@
        == before[k].key@ by {}
    assert(has_distinct_keys(after)) by {
        assert forall|a: int, b: int| 0 <= a < b < after.len() implies (#[trigger] after[a]).key@
            != (#[trigger] after[b]).key@ by {
            assert(before[a].key@ != before[b].key@);
        }
    }
    index_is_unique(after, i);
    assert forall|key: Seq<char>| has_key(after, key) == has_key(before, key) by {
        if has_key(before, key) {
            let k = key_index(before, key);
            assert(after[k].key@ == key);
        }
        if has_key(after, key) {
            let k = key_index(after, key);
            assert(before[k].key@ == key);
        }
    }
    assert forall|key: Seq<char>| has_key(before, key) && key != entry.key@ implies after[key_index(
        after,
        key,
    )].value == before[key_index(before, key)].value by {
        let k = key_index(before, key);
        assert(after[k].key@ == key);
        index_is_unique(after, k);
        index_is_unique(before, k);
    }
    assert(has_key(before, entry.key@)) by {
        assert(before[i].key@ == entry.key@);
    }
    assert(entry_map(after) =~= entry_map(before).insert(entry.key@, entry.value));
}

proof fn entry_added<T>(before: Seq<TextEntry<T>>, entry: TextEntry<T>)
    requires
        has_distinct_keys(before),
        !has_key(before, entry.key@),
    ensures
        has_distinct_keys(before.push(entry)),
        entry_map(before.push(entry)) == entry_map(before).insert(entry.key@, entry.value),
{
    let after = before.push(entry);
    let n = before.len() as int;
    assert forall|k: int| 0 <= k < n implies (#[trigger] after[k]) == before[k] by {}
    assert forall|k: int| 0 <= k < n implies (#[trigger] before[k]).key@ != entry.key@ by {}
    assert(has_distinct_keys(after)) by {
        assert forall|a: int, b: int| 0 <= a < b < after.len() implies (#[trigger] after[a]).key@
            != (#[trigger] after[b]).key@ by {
            if b < n {
                assert(before[a].key@ != before[b].key@);
            } else {
                assert(before[a].key@ != entry.key@);
            }
        }
    }
    index_is_unique(after, n);
    assert forall|key: Seq<char>| key != entry.key@ implies has_key(after, key) == has_key(
        before,
        key,
    ) by {
        if has_key(before, key) {
            let k = key_index(before, key);
            assert(after[k].key@ == key);
        }
        if has_key(after, key) {
            let k = key_index(after, key);
            assert(before[k].key@ == key);
        }
    }
    assert forall|key: Seq<char>| has_key(before, key) implies after[key_index(after, key)].value
        == before[key_index(before, key)].value by {
        let k = key_index(before, key);
        assert(after[k].key@ == key);
        index_is_unique(after, k);
        index_is_unique(before, k);
    }
    assert(entry_map(after) =~= entry_map(before).insert(entry.key@, entry.value));
}

} // verus!
