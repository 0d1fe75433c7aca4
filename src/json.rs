//! A JSON value model for capability payloads, with key lookup on objects.

use vstd::prelude::*;

verus! {

/// A JSON number as it arrives in a payload: an integer that fits `i64`,
/// an integer above `i64::MAX`, or any other number, kept as its text.
#[derive(Debug)]
pub enum Number {
    Int(i64),
    UInt(u64),
    Float(String),
}

/// A JSON value.  Objects keep their entries in payload order.
#[derive(Debug)]
pub enum Json {
    Null,
    Bool(bool),
    Number(Number),
    String(String),
    Array(Vec<Json>),
    Object(Vec<(String, Json)>),
}

/// `i` is the first position of `m` whose key is `key`.
pub open spec fn key_at(m: Seq<(String, Json)>, key: Seq<char>, i: int) -> bool {
    &&& 0 <= i < m.len()
    &&& m[i].0@ == key
    &&& forall|j: int| 0 <= j < i ==> m[j].0@ != key
}

/// The first position of `m` whose key is `key`, if any.
pub open spec fn find_key(m: Seq<(String, Json)>, key: Seq<char>) -> Option<int> {
    if exists|i: int| key_at(m, key, i) {
        Some(choose|i: int| key_at(m, key, i))
    } else {
        None
    }
}

/// The value stored under `key` (the first entry with that key).
pub open spec fn get_spec(m: Seq<(String, Json)>, key: Seq<char>) -> Option<Json> {
    match find_key(m, key) {
        Some(i) => Some(m[i].1),
        None => None,
    }
}

/// `m` without the first entry whose key is `key`.
pub open spec fn remove_spec(m: Seq<(String, Json)>, key: Seq<char>) -> Seq<(String, Json)> {
    match find_key(m, key) {
        Some(i) => m.remove(i),
        None => m,
    }
}

/// Whether `m` has an entry with key `key`.
pub open spec fn has_key(m: Seq<(String, Json)>, key: Seq<char>) -> bool {
    exists|i: int| 0 <= i < m.len() && m[i].0@ == key
}

pub proof fn lemma_key_at_unique(m: Seq<(String, Json)>, key: Seq<char>, i: int)
    requires
        key_at(m, key, i),
    ensures
        find_key(m, key) == Some(i),
{
    let k = choose|k: int| key_at(m, key, k);
    assert(key_at(m, key, k));
    if k < i {
        assert(m[k].0@ != key);
    } else if i < k {
        assert(m[i].0@ != key);
    }
}

pub proof fn lemma_no_key(m: Seq<(String, Json)>, key: Seq<char>)
    requires
        forall|j: int| 0 <= j < m.len() ==> m[j].0@ != key,
    ensures
        find_key(m, key) is None,
        !has_key(m, key),
{
}

pub proof fn lemma_has_key(m: Seq<(String, Json)>, key: Seq<char>)
    ensures
        has_key(m, key) <==> find_key(m, key) is Some,
{
    if has_key(m, key) {
        let i = choose|i: int| 0 <= i < m.len() && m[i].0@ == key;
        lemma_first_key(m, key, i);
    }
}

/// Some position holds `key`, so a first one does too.
proof fn lemma_first_key(m: Seq<(String, Json)>, key: Seq<char>, i: int)
    requires
        0 <= i < m.len(),
        m[i].0@ == key,
    ensures
        find_key(m, key) is Some,
    decreases i,
{
    if exists|j: int| 0 <= j < i && m[j].0@ == key {
        let j = choose|j: int| 0 <= j < i && m[j].0@ == key;
        lemma_first_key(m, key, j);
    } else {
        assert(key_at(m, key, i));
    }
}

/// Compares two strings character by character.
pub fn str_eq(a: &str, b: &str) -> (r: bool)
    ensures
        r == (a@ == b@),
{
    let n = a.unicode_len();
    let m = b.unicode_len();
    if n != m {
        return false;
    }
    let mut i: usize = 0;
    while i < n
        invariant
            n == a@.len(),
            m == b@.len(),
            n == m,
            i <= n,
            forall|j: int| 0 <= j < i ==> a@[j] == b@[j],
        decreases n - i,
    {
        if a.get_char(i) != b.get_char(i) {
            return false;
        }
        i = i + 1;
    }
    assert(a@ =~= b@);
    true
}

/// The position of the first entry of `m` whose key is `key`.
pub fn find_index(m: &Vec<(String, Json)>, key: &str) -> (r: Option<usize>)
    ensures
        match r {
            Some(i) => find_key(m@, key@) == Some(i as int),
            None => find_key(m@, key@) is None,
        },
{
    let mut i: usize = 0;
    while i < m.len()
        invariant
            i <= m@.len(),
            forall|j: int| 0 <= j < i ==> m@[j].0@ != key@,
        decreases m@.len() - i,
    {
        if str_eq(m[i].0.as_str(), key) {
            proof {
                assert(key_at(m@, key@, i as int));
                lemma_key_at_unique(m@, key@, i as int);
            }
            return Some(i);
        }
        i = i + 1;
    }
    proof {
        lemma_no_key(m@, key@);
    }
    None
}

/// The value stored under `key` in the object `m`.
pub fn get<'a>(m: &'a Vec<(String, Json)>, key: &str) -> (r: Option<&'a Json>)
    ensures
        match r {
            Some(v) => get_spec(m@, key@) == Some(*v),
            None => get_spec(m@, key@) is None,
        },
{
    match find_index(m, key) {
        Some(i) => Some(&m[i].1),
        None => None,
    }
}

/// Whether the object `m` has an entry under `key`.
pub fn contains_key(m: &Vec<(String, Json)>, key: &str) -> (r: bool)
    ensures
        r == (get_spec(m@, key@) is Some),
{
    find_index(m, key).is_some()
}

/// Takes the value stored under `key` out of the object `m`.
pub fn remove(m: &mut Vec<(String, Json)>, key: &str) -> (r: Option<Json>)
    ensures
        r == get_spec(old(m)@, key@),
        final(m)@ == remove_spec(old(m)@, key@),
{
    match find_index(m, key) {
        Some(i) => {
            let (_, v) = m.remove(i);
            Some(v)
        },
        None => None,
    }
}

/// The text of a JSON string.
pub open spec fn str_of(v: Json) -> Option<Seq<char>> {
    match v {
        Json::String(s) => Some(s@),
        _ => None,
    }
}

/// The texts of an array whose entries are all strings.
pub open spec fn all_strings(items: Seq<Json>) -> bool {
    forall|i: int| 0 <= i < items.len() ==> (#[trigger] items[i]) is String
}

pub open spec fn texts_of(items: Seq<Json>) -> Seq<Seq<char>> {
    Seq::new(items.len(), |i: int| str_of(items[i])->0)
}

pub open spec fn string_array(items: Seq<Json>) -> Option<Seq<Seq<char>>> {
    if all_strings(items) {
        Some(texts_of(items))
    } else {
        None
    }
}

pub open spec fn texts(v: Seq<String>) -> Seq<Seq<char>> {
    v.map_values(|s: String| s@)
}

/// Copies the entries of an array that holds strings only.
pub fn to_string_vec(items: &Vec<Json>) -> (r: Option<Vec<String>>)
    ensures
        match r {
            Some(v) => string_array(items@) == Some(texts(v@)),
            None => string_array(items@) is None,
        },
{
    let mut out: Vec<String> = Vec::new();
    let mut i: usize = 0;
    while i < items.len()
        invariant
            i <= items@.len(),
            out@.len() == i,
            forall|j: int| 0 <= j < i ==> (#[trigger] items@[j]) is String,
            forall|j: int| 0 <= j < i ==> (#[trigger] out@[j])@ == str_of(items@[j])->0,
        decreases items@.len() - i,
    {
        match &items[i] {
            Json::String(s) => {
                out.push(s.clone());
            },
            _ => {
                return None;
            },
        }
        i = i + 1;
    }
    assert(texts(out@) =~= texts_of(items@));
    Some(out)
}

} // verus!
