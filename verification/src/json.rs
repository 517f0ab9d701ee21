use vstd::prelude::*;

verus! {

/// A JSON value as it is sent in a request body.
#[derive(Debug, PartialEq)]
pub enum JsonValue {
    Null,
    Bool(bool),
    /// A non-negative integer.
    UInt(u64),
    /// Any integer that fits in an `i64`.
    Int(i64),
    Str(String),
    Array(Vec<JsonValue>),
    Object(Vec<(String, JsonValue)>),
}

/// The entries of a JSON object, in insertion order.
pub type JsonMap = Vec<(String, JsonValue)>;

/// What `Value::as_u64` gives back for a value: the integer when it is a
/// non-negative integer.
pub open spec fn spec_as_u64(v: JsonValue) -> Option<u64> {
    match v {
        JsonValue::UInt(n) => Some(n),
        JsonValue::Int(i) => if i >= 0 { Some(i as u64) } else { None },
        _ => None,
    }
}

impl JsonValue {
    /// The integer that this value holds, when it holds a non-negative one.
    pub fn as_u64(&self) -> (r: Option<u64>)
        ensures
            r == spec_as_u64(*self),
    {
        match self {
            JsonValue::UInt(n) => Some(*n),
            JsonValue::Int(i) => if *i >= 0 { Some(*i as u64) } else { None },
            _ => None,
        }
    }
}

/// The index of the first entry of `map` whose key is `key`, if any.
pub open spec fn first_key_index(map: Seq<(String, JsonValue)>, key: Seq<char>) -> Option<int>
    decreases map.len(),
{
    if map.len() == 0 {
        None
    } else if map[0].0@ == key {
        Some(0)
    } else {
        match first_key_index(map.drop_first(), key) {
            Some(i) => Some(i + 1),
            None => None,
        }
    }
}

/// Whether `v` is the JSON string `s`.
pub open spec fn is_json_str(v: JsonValue, s: Seq<char>) -> bool {
    match v {
        JsonValue::Str(x) => x@ == s,
        _ => false,
    }
}

/// The object entry `key: value`.
pub fn entry(key: &str, value: JsonValue) -> (e: (String, JsonValue))
    ensures
        e.0@ == key@,
        e.1 == value,
{
    (String::from_str(key), value)
}

/// The JSON string that holds `s`.
pub fn json_str(s: &str) -> (v: JsonValue)
    ensures
        is_json_str(v, s@),
{
    JsonValue::Str(String::from_str(s))
}

/// The value of the first entry of `map` whose key is `key`, if any: what
/// `Map::get` gives for an object whose keys are distinct.
pub open spec fn json_get(map: Seq<(String, JsonValue)>, key: Seq<char>) -> Option<JsonValue> {
    match first_key_index(map, key) {
        Some(i) => Some(map[i].1),
        None => None,
    }
}

/// The position of the first entry of `map` whose key is `key`, if any.
pub fn find_key(map: &JsonMap, key: &str) -> (r: Option<usize>)
    ensures
        match r {
            Some(i) => i < map@.len() && first_key_index(map@, key@) == Some(i as int),
            None => first_key_index(map@, key@) is None,
        },
{
    let k = String::from_str(key);
    let mut i: usize = 0;
    while i < map.len()
        invariant
            i <= map@.len(),
            k@ == key@,
            forall|j: int| 0 <= j < i ==> map@[j].0@ != key@,
        decreases map@.len() - i,
    {
        if map[i].0 == k {
            proof {
                lemma_first_key_index(map@, key@, i as int);
            }
            return Some(i);
        }
        i = i + 1;
    }
    proof {
        lemma_first_key_index_none(map@, key@);
    }
    None
}

/// The first entry with key `key` is the one at `i` when no earlier entry
/// has that key.
pub(crate) proof fn lemma_first_key_index(map: Seq<(String, JsonValue)>, key: Seq<char>, i: int)
    requires
        0 <= i < map.len(),
        map[i].0@ == key,
        forall|j: int| 0 <= j < i ==> map[j].0@ != key,
    ensures
        first_key_index(map, key) == Some(i),
    decreases i,
{
    if i > 0 {
        lemma_first_key_index(map.drop_first(), key, i - 1);
    }
}

/// No entry is found for a key that no entry has.
pub(crate) proof fn lemma_first_key_index_none(map: Seq<(String, JsonValue)>, key: Seq<char>)
    requires
        forall|j: int| 0 <= j < map.len() ==> map[j].0@ != key,
    ensures
        first_key_index(map, key) is None,
    decreases map.len(),
{
    if map.len() > 0 {
        lemma_first_key_index_none(map.drop_first(), key);
    }
}

} // verus!
