//! Keyed entries: the sequences of `(key, value)` pairs that stand for the
//! string-keyed maps of the resource model, with the first entry of a key
//! being the one that counts.

use vstd::prelude::*;

verus! {

/// The index of the first entry whose key is `key`.
pub open spec fn find_key<K, V>(entries: Seq<(K, V)>, key: K) -> Option<int>
    decreases entries.len(),
{
    if entries.len() == 0 {
        None
    } else if entries[0].0 == key {
        Some(0)
    } else {
        match find_key(entries.drop_first(), key) {
            Some(i) => Some(i + 1),
            None => None,
        }
    }
}

/// The value of the first entry whose key is `key`.
pub open spec fn get_entry<K, V>(entries: Seq<(K, V)>, key: K) -> Option<V> {
    match find_key(entries, key) {
        Some(i) => Some(entries[i].1),
        None => None,
    }
}

/// The entries with `key` set to `value`: its entry replaced in place when
/// there is one, else a new entry at the end.
pub open spec fn put_entry<K, V>(entries: Seq<(K, V)>, key: K, value: V) -> Seq<(K, V)> {
    match find_key(entries, key) {
        Some(i) => entries.update(i, (key, value)),
        None => entries.push((key, value)),
    }
}

/// No key occurs twice.
pub open spec fn keys_distinct<K, V>(entries: Seq<(K, V)>) -> bool {
    forall|i: int, j: int|
        0 <= i < entries.len() && 0 <= j < entries.len() && i != j ==> entries[i].0 != entries[j].0
}

/// What `find_key` returns: the first index holding the key, or none when
/// no entry holds it.
pub proof fn lemma_find_key<K, V>(entries: Seq<(K, V)>, key: K)
    ensures
        match find_key(entries, key) {
            Some(i) => {
                &&& 0 <= i < entries.len()
                &&& entries[i].0 == key
                &&& forall|j: int| 0 <= j < i ==> entries[j].0 != key
            },
            None => forall|j: int| 0 <= j < entries.len() ==> entries[j].0 != key,
        },
    decreases entries.len(),
{
    if entries.len() > 0 && entries[0].0 != key {
        lemma_find_key(entries.drop_first(), key);
        assert forall|j: int| 1 <= j < entries.len() implies entries[j] == entries.drop_first()[j
            - 1] by {}
    }
}

/// An index whose key is `key`, with no earlier one, is what `find_key`
/// returns.
pub proof fn lemma_find_key_first<K, V>(entries: Seq<(K, V)>, key: K, i: int)
    requires
        0 <= i < entries.len(),
        entries[i].0 == key,
        forall|j: int| 0 <= j < i ==> entries[j].0 != key,
    ensures
        find_key(entries, key) == Some(i),
{
    lemma_find_key(entries, key);
}

/// A key that no entry holds is not found.
pub proof fn lemma_find_key_absent<K, V>(entries: Seq<(K, V)>, key: K)
    requires
        forall|j: int| 0 <= j < entries.len() ==> entries[j].0 != key,
    ensures
        find_key(entries, key) == None::<int>,
{
    lemma_find_key(entries, key);
}

/// Reading a key right after setting it gives the value set.
pub proof fn lemma_get_put_same<K, V>(entries: Seq<(K, V)>, key: K, value: V)
    ensures
        get_entry(put_entry(entries, key, value), key) == Some(value),
{
    lemma_find_key(entries, key);
    let p = put_entry(entries, key, value);
    match find_key(entries, key) {
        Some(i) => {
            lemma_find_key_first(p, key, i);
        },
        None => {
            lemma_find_key_first(p, key, entries.len() as int);
        },
    }
}

/// Setting one key leaves what every other key reads unchanged.
pub proof fn lemma_get_put_other<K, V>(entries: Seq<(K, V)>, key: K, value: V, other: K)
    requires
        other != key,
    ensures
        get_entry(put_entry(entries, key, value), other) == get_entry(entries, other),
{
    lemma_find_key(entries, key);
    lemma_find_key(entries, other);
    let p = put_entry(entries, key, value);
    match find_key(entries, other) {
        Some(i) => {
            lemma_find_key_first(p, other, i);
        },
        None => {
            lemma_find_key_absent(p, other);
        },
    }
}

/// Setting a key to the value it was just set to changes nothing.
pub proof fn lemma_put_put_same<K, V>(entries: Seq<(K, V)>, key: K, value: V)
    ensures
        put_entry(put_entry(entries, key, value), key, value) == put_entry(entries, key, value),
{
    lemma_find_key(entries, key);
    let p = put_entry(entries, key, value);
    match find_key(entries, key) {
        Some(i) => {
            lemma_find_key_first(p, key, i);
            assert(p.update(i, (key, value)) =~= p);
        },
        None => {
            lemma_find_key_first(p, key, entries.len() as int);
            assert(p.update(entries.len() as int, (key, value)) =~= p);
        },
    }
}

/// Setting a key keeps the keys distinct.
pub proof fn lemma_put_keeps_distinct<K, V>(entries: Seq<(K, V)>, key: K, value: V)
    requires
        keys_distinct(entries),
    ensures
        keys_distinct(put_entry(entries, key, value)),
{
    lemma_find_key(entries, key);
}

/// Reading from two runs of entries one after the other: the first run
/// answers when it holds the key.
pub broadcast proof fn lemma_get_entry_append<K, V>(a: Seq<(K, V)>, b: Seq<(K, V)>, key: K)
    ensures
        #[trigger] get_entry(a + b, key) == (match get_entry(a, key) {
            Some(v) => Some(v),
            None => get_entry(b, key),
        }),
{
    lemma_find_key(a, key);
    lemma_find_key(b, key);
    let ab = a + b;
    match find_key(a, key) {
        Some(i) => {
            lemma_find_key_first(ab, key, i);
        },
        None => {
            match find_key(b, key) {
                Some(i) => {
                    lemma_find_key_first(ab, key, a.len() + i);
                },
                None => {
                    lemma_find_key_absent(ab, key);
                },
            }
        },
    }
}

/// Reading from a single entry.
pub broadcast proof fn lemma_get_entry_single<K, V>(k: K, v: V, key: K)
    ensures
        #[trigger] get_entry(seq![(k, v)], key) == (if k == key {
            Some(v)
        } else {
            None
        }),
{
    lemma_find_key(seq![(k, v)], key);
}

/// Reading from no entries.
pub broadcast proof fn lemma_get_entry_empty<K, V>(key: K)
    ensures
        #[trigger] get_entry(Seq::<(K, V)>::empty(), key) == None::<V>,
{
    lemma_find_key(Seq::<(K, V)>::empty(), key);
}

pub broadcast group group_entries {
    lemma_get_entry_append,
    lemma_get_entry_single,
    lemma_get_entry_empty,
}

/// Finds the first entry whose key is `key`.
pub fn find_index<T: DeepView>(entries: &Vec<(String, T)>, key: &String) -> (r: Option<usize>)
    ensures
        match r {
            Some(i) => find_key(entries.deep_view(), key@) == Some(i as int),
            None => find_key(entries.deep_view(), key@) == None::<int>,
        },
{
    let mut i: usize = 0;
    while i < entries.len()
        invariant
            i <= entries.len(),
            forall|j: int| 0 <= j < i ==> entries.deep_view()[j].0 != key@,
        decreases entries.len() - i,
    {
        if entries[i].0 == *key {
            proof {
                lemma_find_key_first(entries.deep_view(), key@, i as int);
            }
            return Some(i);
        }
        i = i + 1;
    }
    proof {
        lemma_find_key_absent(entries.deep_view(), key@);
    }
    None
}

/// Sets `key` to `value`: in place when an entry holds the key, else as a
/// new entry at the end.
pub fn put<T: DeepView>(entries: &mut Vec<(String, T)>, key: String, value: T)
    ensures
        final(entries).deep_view() == put_entry(old(entries).deep_view(), key@, value.deep_view()),
        keys_distinct(old(entries).deep_view()) ==> keys_distinct(final(entries).deep_view()),
{
    let ghost entry = (key@, value.deep_view());
    let ghost before = entries.deep_view();
    proof {
        lemma_find_key(before, key@);
        if keys_distinct(before) {
            lemma_put_keeps_distinct(before, key@, entry.1);
        }
    }
    match find_index(entries, &key) {
        Some(i) => {
            entries.set(i, (key, value));
            assert(entries.deep_view() =~= before.update(i as int, entry));
        },
        None => {
            entries.push((key, value));
            assert(entries.deep_view() =~= before.push(entry));
        },
    }
}

}
