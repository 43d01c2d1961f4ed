//! A JSON value as the settings logic sees it, with object entries in the
//! order in which they are iterated.

use vstd::prelude::*;
use crate::text::str_eq;

verus! {

/// A JSON value. Numbers are kept as their JSON text; an object is the list of
/// its entries in iteration order.
#[derive(Debug, PartialEq)]
pub enum JsonValue {
    Null,
    Bool(bool),
    Number(String),
    String(String),
    Array(Vec<JsonValue>),
    Object(Vec<(String, JsonValue)>),
}

/// Object entries with their keys taken as character sequences.
pub type Entries = Seq<(Seq<char>, JsonValue)>;

/// The entries of an object vector, keys viewed as character sequences.
pub open spec fn entries_view(v: Seq<(String, JsonValue)>) -> Entries {
    v.map_values(|e: (String, JsonValue)| (e.0@, e.1))
}

/// The position of the first entry whose key is `k`, if any.
pub open spec fn find_key(entries: Entries, k: Seq<char>) -> Option<int>
    decreases entries.len(),
{
    if entries.len() == 0 {
        None
    } else if entries[0].0 == k {
        Some(0)
    } else {
        match find_key(entries.drop_first(), k) {
            Some(i) => Some(i + 1),
            None => None,
        }
    }
}

/// `find_key` gives the first position holding `k`, or nothing when no
/// entry holds it.
pub proof fn lemma_find_key(entries: Entries, k: Seq<char>)
    ensures
        match find_key(entries, k) {
            Some(i) => 0 <= i < entries.len() && entries[i].0 == k && forall|j: int|
                0 <= j < i ==> entries[j].0 != k,
            None => forall|j: int| 0 <= j < entries.len() ==> entries[j].0 != k,
        },
    decreases entries.len(),
{
    if entries.len() > 0 && entries[0].0 != k {
        let rest = entries.drop_first();
        lemma_find_key(rest, k);
        assert forall|j: int| 1 <= j < entries.len() implies entries[j] == rest[j - 1] by {}
    }
}

/// No key occurs twice.
pub open spec fn keys_unique(entries: Entries) -> bool {
    forall|i: int, j: int|
        0 <= i < entries.len() && 0 <= j < entries.len() && i != j ==> entries[i].0
            != entries[j].0
}

/// Sets `k` to `v`: the first entry with key `k` is replaced in place, or a
/// new entry is appended when there is none.
pub open spec fn upsert(entries: Entries, k: Seq<char>, v: JsonValue) -> Entries {
    match find_key(entries, k) {
        Some(i) => entries.update(i, (k, v)),
        None => entries.push((k, v)),
    }
}

/// The value stored under `k`, if any.
pub open spec fn lookup(entries: Entries, k: Seq<char>) -> Option<JsonValue> {
    match find_key(entries, k) {
        Some(i) => Some(entries[i].1),
        None => None,
    }
}

/// `value[key].as_str()`: the string stored under `key` when `value` is an
/// object holding a string there, `None` otherwise.
pub open spec fn str_at(value: JsonValue, key: Seq<char>) -> Option<Seq<char>> {
    match value {
        JsonValue::Object(entries) => match lookup(entries_view(entries@), key) {
            Some(JsonValue::String(s)) => Some(s@),
            _ => None,
        },
        _ => None,
    }
}

/// The first index whose key is `k` is what `find_key` gives.
pub proof fn lemma_find_key_first(entries: Entries, k: Seq<char>, i: int)
    requires
        0 <= i < entries.len(),
        entries[i].0 == k,
        forall|j: int| 0 <= j < i ==> entries[j].0 != k,
    ensures
        find_key(entries, k) == Some(i),
{
    lemma_find_key(entries, k);
}

/// Without a matching key, `find_key` finds nothing.
pub proof fn lemma_find_key_none(entries: Entries, k: Seq<char>)
    requires
        forall|j: int| 0 <= j < entries.len() ==> entries[j].0 != k,
    ensures
        find_key(entries, k) is None,
{
    lemma_find_key(entries, k);
}

/// Reading a key right after setting it gives the value set.
pub proof fn lemma_upsert_lookup_same(e: Entries, k: Seq<char>, v: JsonValue)
    ensures
        lookup(upsert(e, k, v), k) == Some(v),
{
    let u = upsert(e, k, v);
    lemma_find_key(e, k);
    match find_key(e, k) {
        Some(i) => {
            assert forall|j: int| 0 <= j < i implies u[j].0 != k by {
                assert(u[j] == e[j]);
            }
            lemma_find_key_first(u, k, i);
        },
        None => {
            assert forall|j: int| 0 <= j < e.len() implies u[j].0 != k by {
                assert(u[j] == e[j]);
            }
            lemma_find_key_first(u, k, e.len() as int);
        },
    }
}

/// Setting one key leaves what every other key reads unchanged.
pub proof fn lemma_upsert_lookup_other(e: Entries, k: Seq<char>, v: JsonValue, k2: Seq<char>)
    requires
        k2 != k,
    ensures
        lookup(upsert(e, k, v), k2) == lookup(e, k2),
{
    let u = upsert(e, k, v);
    lemma_find_key(e, k);
    lemma_find_key(e, k2);
    assert forall|j: int| 0 <= j < e.len() implies (u[j].0 == k2) == (e[j].0 == k2) by {
        if find_key(e, k) is Some {
            let i = find_key(e, k)->0;
            assert(0 <= i < e.len() && e[i].0 == k);
        }
    }
    assert(u.len() >= e.len());
    if u.len() > e.len() {
        assert(u[e.len() as int].0 == k);
    }
    match find_key(e, k2) {
        Some(i) => {
            assert(u[i].0 == k2);
            assert forall|j: int| 0 <= j < i implies u[j].0 != k2 by {}
            lemma_find_key_first(u, k2, i);
            if find_key(e, k) is Some {
                let p = find_key(e, k)->0;
                assert(0 <= p < e.len() && e[p].0 == k);
                assert(p != i);
            }
            assert(u[i] == e[i]);
        },
        None => {
            assert forall|j: int| 0 <= j < u.len() implies u[j].0 != k2 by {}
            lemma_find_key_none(u, k2);
        },
    }
}

/// A key that can be read stays readable after any key is set.
pub proof fn lemma_upsert_keeps_present(e: Entries, k: Seq<char>, v: JsonValue, k2: Seq<char>)
    requires
        lookup(e, k2) is Some,
    ensures
        lookup(upsert(e, k, v), k2) is Some,
{
    if k2 == k {
        lemma_upsert_lookup_same(e, k, v);
    } else {
        lemma_upsert_lookup_other(e, k, v, k2);
    }
}

/// Setting a key keeps the keys of an entry list distinct.
pub proof fn lemma_upsert_unique(e: Entries, k: Seq<char>, v: JsonValue)
    requires
        keys_unique(e),
    ensures
        keys_unique(upsert(e, k, v)),
{
    let u = upsert(e, k, v);
    lemma_find_key(e, k);
    match find_key(e, k) {
        Some(i) => {
            assert forall|a: int, b: int|
                0 <= a < u.len() && 0 <= b < u.len() && a != b implies u[a].0 != u[b].0 by {
                assert(u[a].0 == e[a].0);
                assert(u[b].0 == e[b].0);
            }
        },
        None => {
            assert forall|a: int, b: int|
                0 <= a < u.len() && 0 <= b < u.len() && a != b implies u[a].0 != u[b].0 by {
                if a < e.len() {
                    assert(u[a] == e[a]);
                }
                if b < e.len() {
                    assert(u[b] == e[b]);
                }
            }
        },
    }
}

/// The position of the first entry of `v` whose key is `k`.
pub fn position_of_key(v: &Vec<(String, JsonValue)>, k: &str) -> (r: Option<usize>)
    ensures
        match r {
            Some(i) => find_key(entries_view(v@), k@) == Some(i as int) && i < v.len(),
            None => find_key(entries_view(v@), k@) is None,
        },
{
    let ghost ev = entries_view(v@);
    let mut i: usize = 0;
    while i < v.len()
        invariant
            i <= v.len(),
            ev == entries_view(v@),
            forall|j: int| 0 <= j < i ==> ev[j].0 != k@,
        decreases v.len() - i,
    {
        if str_eq(v[i].0.as_str(), k) {
            proof {
                lemma_find_key_first(ev, k@, i as int);
            }
            return Some(i);
        }
        i = i + 1;
    }
    proof {
        lemma_find_key_none(ev, k@);
    }
    None
}

/// Sets `key` to `value` in the entry list (see [`upsert`]).
pub fn insert_entry(v: &mut Vec<(String, JsonValue)>, key: String, value: JsonValue)
    ensures
        entries_view(final(v)@) == upsert(entries_view(old(v)@), key@, value),
{
    let ghost k = key@;
    match position_of_key(v, key.as_str()) {
        Some(i) => {
            v.set(i, (key, value));
            assert(entries_view(v@) =~= entries_view(old(v)@).update(i as int, (k, value)));
        },
        None => {
            v.push((key, value));
            assert(entries_view(v@) =~= entries_view(old(v)@).push((k, value)));
        },
    }
}

/// `value[key].as_str()`.
pub fn get_str(value: &JsonValue, key: &str) -> (r: Option<String>)
    ensures
        match r {
            Some(s) => str_at(*value, key@) == Some(s@),
            None => str_at(*value, key@) is None,
        },
{
    match value {
        JsonValue::Object(entries) => match position_of_key(entries, key) {
            Some(i) => match &entries[i].1 {
                JsonValue::String(s) => Some(s.clone()),
                _ => None,
            },
            None => None,
        },
        _ => None,
    }
}

} // verus!
