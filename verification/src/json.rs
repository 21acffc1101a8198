use vstd::prelude::*;

verus! {

/// A JSON document: the shape of contract messages and of the chain's query
/// answers.  Numbers are kept as their text, since nothing here computes with
/// them.  An object keeps its entries in order; a lookup takes the first
/// entry with the key.
#[derive(Debug, PartialEq, Eq)]
pub enum JsonValue {
    Null,
    Bool(bool),
    Number(String),
    Str(String),
    Array(Vec<JsonValue>),
    Object(Vec<(String, JsonValue)>),
}

/// `k` is the first entry of `entries` whose key is `key`.
pub open spec fn key_at(entries: Seq<(String, JsonValue)>, key: Seq<char>, k: int) -> bool {
    &&& 0 <= k < entries.len()
    &&& entries[k].0@ == key
    &&& forall|j: int| 0 <= j < k ==> entries[j].0@ != key
}

/// Some entry of `entries` has the key `key`.
pub open spec fn has_key(entries: Seq<(String, JsonValue)>, key: Seq<char>) -> bool {
    exists|k: int| 0 <= k < entries.len() && entries[k].0@ == key
}

/// The value under `key` in `entries`, where there is one.
pub open spec fn value_of(entries: Seq<(String, JsonValue)>, key: Seq<char>) -> JsonValue {
    entries[choose|k: int| key_at(entries, key, k)].1
}

/// `v[key]` with the meaning of `serde_json`'s index: the value under `key`
/// when `v` is an object that has it, and `Null` otherwise.
pub open spec fn member(v: JsonValue, key: Seq<char>) -> JsonValue {
    match v {
        JsonValue::Object(entries) => if has_key(entries@, key) {
            value_of(entries@, key)
        } else {
            JsonValue::Null
        },
        _ => JsonValue::Null,
    }
}

/// `v[i]`: the element at `i` when `v` is an array that long, and `Null`
/// otherwise.
pub open spec fn element(v: JsonValue, i: int) -> JsonValue {
    match v {
        JsonValue::Array(items) => if 0 <= i < items@.len() {
            items@[i]
        } else {
            JsonValue::Null
        },
        _ => JsonValue::Null,
    }
}

/// `v.as_str()`: the text of a JSON string, and nothing for any other value.
pub open spec fn as_text(v: JsonValue) -> Option<Seq<char>> {
    match v {
        JsonValue::Str(s) => Some(s@),
        _ => None,
    }
}

/// The first entry with a given key is unique.
pub proof fn lemma_key_at_unique(entries: Seq<(String, JsonValue)>, key: Seq<char>, k1: int, k2: int)
    requires
        key_at(entries, key, k1),
        key_at(entries, key, k2),
    ensures
        k1 == k2,
{
}

/// Looks up the first entry of `entries` whose key is `key`.
pub fn find_key(entries: &Vec<(String, JsonValue)>, key: &str) -> (r: Option<usize>)
    ensures
        match r {
            Some(k) => key_at(entries@, key@, k as int),
            None => !has_key(entries@, key@),
        },
{
    let wanted = String::from_str(key);
    let n = entries.len();
    let mut i: usize = 0;
    while i < n
        invariant
            n == entries@.len(),
            wanted@ == key@,
            0 <= i <= n,
            forall|j: int| 0 <= j < i ==> entries@[j].0@ != key@,
        decreases n - i,
    {
        if entries[i].0 == wanted {
            return Some(i);
        }
        i = i + 1;
    }
    None
}

/// The value under `key` of `entries`, where there is one.
pub fn get_field<'a>(entries: &'a Vec<(String, JsonValue)>, key: &str) -> (r: Option<&'a JsonValue>)
    ensures
        match r {
            Some(v) => has_key(entries@, key@) && *v == value_of(entries@, key@),
            None => !has_key(entries@, key@),
        },
{
    match find_key(entries, key) {
        Some(k) => {
            proof {
                let c = choose|j: int| key_at(entries@, key@, j);
                lemma_key_at_unique(entries@, key@, c, k as int);
            }
            Some(&entries[k].1)
        },
        None => None,
    }
}

/// The entries of an object after `obj.key = value`, but for the new
/// value: the value of an existing key is replaced in place and every other
/// entry is kept; a new key goes last.
pub open spec fn set_entry(
    entries: Seq<(String, JsonValue)>,
    key: Seq<char>,
    result: Seq<(String, JsonValue)>,
) -> bool {
    if has_key(entries, key) {
        exists|k: int|
            #![trigger key_at(entries, key, k)]
            {
                &&& key_at(entries, key, k)
                &&& result.len() == entries.len()
                &&& result[k].0 == entries[k].0
                &&& forall|j: int| 0 <= j < entries.len() && j != k ==> result[j] == entries[j]
            }
    } else {
        &&& result.len() == entries.len() + 1
        &&& result.last().0@ == key
        &&& forall|j: int| 0 <= j < entries.len() ==> result[j] == entries[j]
    }
}

/// Setting one field leaves every other field of the object as it was: it is
/// present exactly when it was, with the same value.
pub proof fn lemma_set_keeps_other_fields(
    entries: Seq<(String, JsonValue)>,
    key: Seq<char>,
    result: Seq<(String, JsonValue)>,
    other: Seq<char>,
)
    requires
        set_entry(entries, key, result),
        other != key,
    ensures
        has_key(result, other) == has_key(entries, other),
        has_key(entries, other) ==> value_of(result, other) == value_of(entries, other),
{
    if has_key(entries, key) {
        let k = choose|k: int| #![trigger key_at(entries, key, k)] {
            &&& key_at(entries, key, k)
            &&& result.len() == entries.len()
            &&& result[k].0 == entries[k].0
            &&& forall|j: int| 0 <= j < entries.len() && j != k ==> result[j] == entries[j]
        };
        assert forall|j: int| 0 <= j < entries.len() implies result[j].0 == entries[j].0 by {
            if j != k {
                assert(result[j] == entries[j]);
            }
        }
        if has_key(entries, other) {
            let w = choose|w: int| 0 <= w < entries.len() && entries[w].0@ == other;
            assert(result[w].0@ == other);
            lemma_first_key_exists(entries, other, w);
            let c = choose|c: int| key_at(entries, other, c);
            let f = choose|f: int| key_at(entries, other, f);
            assert(f != k);
            assert(key_at(result, other, f));
            let g = choose|g: int| key_at(result, other, g);
            lemma_key_at_unique(result, other, f, g);
            lemma_key_at_unique(entries, other, f, c);
            assert(result[f] == entries[f]);
        }
        if has_key(result, other) {
            let w = choose|w: int| 0 <= w < result.len() && result[w].0@ == other;
            assert(entries[w].0@ == other);
        }
    } else {
        if has_key(entries, other) {
            let w = choose|w: int| 0 <= w < entries.len() && entries[w].0@ == other;
            assert(result[w].0@ == other);
            lemma_first_key_exists(entries, other, w);
            let f = choose|f: int| key_at(entries, other, f);
            assert(key_at(result, other, f));
            let g = choose|g: int| key_at(result, other, g);
            lemma_key_at_unique(result, other, f, g);
            assert(result[f] == entries[f]);
        }
        if has_key(result, other) {
            let w = choose|w: int| 0 <= w < result.len() && result[w].0@ == other;
            assert(w != entries.len());
            assert(entries[w].0@ == other);
        }
    }
}

/// Where some entry has the key, there is a first such entry.
pub proof fn lemma_first_key_exists(entries: Seq<(String, JsonValue)>, key: Seq<char>, w: int)
    requires
        0 <= w < entries.len(),
        entries[w].0@ == key,
    ensures
        exists|f: int| key_at(entries, key, f),
    decreases w,
{
    if forall|j: int| 0 <= j < w ==> entries[j].0@ != key {
        assert(key_at(entries, key, w));
    } else {
        let j = choose|j: int| 0 <= j < w && entries[j].0@ == key;
        lemma_first_key_exists(entries, key, j);
    }
}

/// Sets the field `key` of a JSON object (given by its entries) to `value`.
pub fn set_field(entries: &mut Vec<(String, JsonValue)>, key: String, value: JsonValue)
    ensures
        set_entry(old(entries)@, key@, final(entries)@),
        has_key(final(entries)@, key@),
        value_of(final(entries)@, key@) == value,
{
    let ghost key_view = key@;
    match find_key(entries, key.as_str()) {
        Some(k) => {
            let (old_key, _) = entries.remove(k);
            entries.insert(k, (old_key, value));
            assert(entries@ =~= old(entries)@.update(k as int, (old(entries)@[k as int].0, value)));
            assert(key_at(entries@, key_view, k as int));
            assert(key_at(old(entries)@, key_view, k as int));
            proof {
                let c = choose|j: int| key_at(entries@, key_view, j);
                lemma_key_at_unique(entries@, key_view, c, k as int);
            }
        },
        None => {
            let ghost n = entries@.len();
            entries.push((key, value));
            assert(key_at(entries@, key_view, n as int));
            proof {
                let c = choose|j: int| key_at(entries@, key_view, j);
                lemma_key_at_unique(entries@, key_view, c, n as int);
            }
        },
    }
}

/// `after` is the JSON object `before` with its field `key` set (see
/// [`set_entry`]).
pub open spec fn object_with(
    before: JsonValue,
    after: JsonValue,
    key: Seq<char>,
) -> bool {
    &&& before matches JsonValue::Object(es0)
    &&& after matches JsonValue::Object(es1)
    &&& set_entry(es0@, key, es1@)
    &&& has_key(es1@, key)
}

/// Sets the field `key` of the object `obj` to `value`.
pub fn with_field(obj: JsonValue, key: &str, value: JsonValue) -> (r: JsonValue)
    requires
        obj is Object,
    ensures
        object_with(obj, r, key@),
        member(r, key@) == value,
{
    match obj {
        JsonValue::Object(mut entries) => {
            set_field(&mut entries, String::from_str(key), value);
            JsonValue::Object(entries)
        },
        _ => obj,
    }
}

} // verus!
