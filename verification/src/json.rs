//! The JSON values that the VK API and its long-poll server send, as the
//! library reads them: objects keep their members in order, and a key is
//! looked up at its first occurrence.

use vstd::prelude::*;

verus! {

/// A JSON number as it arrived: an integer that fits `u64`, a negative
/// integer that fits `i64`, or any other number, kept as its text.
#[derive(Debug, Clone, PartialEq)]
pub enum JsonNumber {
    PosInt(u64),
    NegInt(i64),
    Float(String),
}

/// A JSON value.
#[derive(Debug)]
pub enum JsonValue {
    Null,
    Bool(bool),
    Number(JsonNumber),
    String(String),
    Array(Vec<JsonValue>),
    Object(Vec<(String, JsonValue)>),
}

/// `i` is the first position of `key` among the members `entries`.
pub open spec fn is_first_key(entries: Seq<(String, JsonValue)>, key: Seq<char>, i: int) -> bool {
    &&& 0 <= i < entries.len()
    &&& entries[i].0@ == key
    &&& forall|j: int| 0 <= j < i ==> entries[j].0@ != key
}

/// Some member of `entries` has the name `key`.
pub open spec fn has_key(entries: Seq<(String, JsonValue)>, key: Seq<char>) -> bool {
    exists|i: int| 0 <= i < entries.len() && entries[i].0@ == key
}

/// The position of the first member named `key`.
pub open spec fn first_key_index(entries: Seq<(String, JsonValue)>, key: Seq<char>) -> int {
    choose|i: int| is_first_key(entries, key, i)
}

/// The value of the member named `key`, if there is one.
pub open spec fn field(entries: Seq<(String, JsonValue)>, key: Seq<char>) -> Option<JsonValue> {
    if has_key(entries, key) {
        Some(entries[first_key_index(entries, key)].1)
    } else {
        None
    }
}

/// Where a key occurs, its first position is the one `first_key_index` names.
pub proof fn lemma_first_key_index(entries: Seq<(String, JsonValue)>, key: Seq<char>, i: int)
    requires
        is_first_key(entries, key, i),
    ensures
        has_key(entries, key),
        first_key_index(entries, key) == i,
{
    let k = first_key_index(entries, key);
    assert(is_first_key(entries, key, k));
    if k < i {
        assert(entries[k].0@ != key);
    } else if k > i {
        assert(entries[i].0@ != key);
    }
}

impl JsonNumber {
    /// The number as an `i64`, where it is an integer in that range.
    pub open spec fn spec_as_i64(&self) -> Option<i64> {
        match self {
            JsonNumber::PosInt(n) => if *n <= i64::MAX as u64 { Some(*n as i64) } else { None },
            JsonNumber::NegInt(n) => Some(*n),
            JsonNumber::Float(_) => None,
        }
    }

    /// The number as an `i64`, where it is an integer in that range.
    pub fn as_i64(&self) -> (r: Option<i64>)
        ensures
            r == self.spec_as_i64(),
    {
        match self {
            JsonNumber::PosInt(n) => if *n <= i64::MAX as u64 { Some(*n as i64) } else { None },
            JsonNumber::NegInt(n) => Some(*n),
            JsonNumber::Float(_) => None,
        }
    }
}

/// The position of the first member of `entries` named `key`.
pub fn find_key(entries: &Vec<(String, JsonValue)>, key: &str) -> (r: Option<usize>)
    ensures
        match r {
            Some(i) => is_first_key(entries@, key@, i as int),
            None => !has_key(entries@, key@),
        },
{
    let wanted = String::from_str(key);
    let mut i: usize = 0;
    while i < entries.len()
        invariant
            wanted@ == key@,
            i <= entries@.len(),
            forall|j: int| 0 <= j < i ==> entries@[j].0@ != key@,
        decreases entries.len() - i,
    {
        if entries[i].0 == wanted {
            return Some(i);
        }
        i = i + 1;
    }
    None
}

impl JsonValue {
    /// The member named `key` of an object; `None` for a value of any other kind.
    pub open spec fn spec_get(&self, key: Seq<char>) -> Option<JsonValue> {
        match self {
            JsonValue::Object(entries) => field(entries@, key),
            _ => None,
        }
    }

    /// The text of a string value.
    pub open spec fn spec_as_str(&self) -> Option<Seq<char>> {
        match self {
            JsonValue::String(s) => Some(s@),
            _ => None,
        }
    }

    /// A number as an `i64`, where it is an integer in that range.
    pub open spec fn spec_as_i64(&self) -> Option<i64> {
        match self {
            JsonValue::Number(n) => n.spec_as_i64(),
            _ => None,
        }
    }

    /// The member named `key` of an object; `None` for a value of any other kind.
    pub fn get(&self, key: &str) -> (r: Option<&JsonValue>)
        ensures
            match r {
                Some(v) => self.spec_get(key@) == Some(*v),
                None => self.spec_get(key@) is None,
            },
    {
        match self {
            JsonValue::Object(entries) => {
                match find_key(entries, key) {
                    Some(i) => {
                        proof {
                            lemma_first_key_index(entries@, key@, i as int);
                        }
                        Some(&entries[i].1)
                    },
                    None => None,
                }
            },
            _ => None,
        }
    }

    /// The text of a string value.
    pub fn as_str(&self) -> (r: Option<&str>)
        ensures
            match r {
                Some(s) => self.spec_as_str() == Some(s@),
                None => self.spec_as_str() is None,
            },
    {
        match self {
            JsonValue::String(s) => Some(s.as_str()),
            _ => None,
        }
    }

    /// A number as an `i64`, where it is an integer in that range.
    pub fn as_i64(&self) -> (r: Option<i64>)
        ensures
            r == self.spec_as_i64(),
    {
        match self {
            JsonValue::Number(n) => n.as_i64(),
            _ => None,
        }
    }
}

/// A lookup in an object finds the first member with the key, wherever it
/// stands; where no member has the key it finds nothing; and a value of any
/// other kind has no members.
pub proof fn law_get_finds_member(v: JsonValue, key: Seq<char>)
    ensures
        v matches JsonValue::Object(entries) ==> forall|i: int|
            0 <= i < entries@.len() && entries@[i].0@ == key
                && (forall|j: int| 0 <= j < i ==> entries@[j].0@ != key)
                ==> v.spec_get(key) == Some(#[trigger] entries@[i].1),
        v matches JsonValue::Object(entries) ==> ((forall|i: int|
            0 <= i < entries@.len() ==> #[trigger] entries@[i].0@ != key) ==> v.spec_get(key) is None),
        !(v is Object) ==> v.spec_get(key) is None,
{
    if let JsonValue::Object(entries) = v {
        assert forall|i: int|
            0 <= i < entries@.len() && entries@[i].0@ == key
                && (forall|j: int| 0 <= j < i ==> entries@[j].0@ != key)
                implies v.spec_get(key) == Some(#[trigger] entries@[i].1) by {
            lemma_first_key_index(entries@, key, i);
        }
    }
}

/// The text of a string is the string's own text; no other value has text.
pub proof fn law_as_str_is_text(v: JsonValue)
    ensures
        v matches JsonValue::String(s) ==> v.spec_as_str() == Some(s@),
        !(v is String) ==> v.spec_as_str() is None,
{
}

/// A number reads as an `i64` exactly where it is an integer in that range,
/// and then as that integer; no other value does.
pub proof fn law_as_i64_is_integer(v: JsonValue)
    ensures
        v matches JsonValue::Number(JsonNumber::PosInt(n)) ==> (n <= i64::MAX ==> v.spec_as_i64()
            == Some(n as i64)) && (n > i64::MAX ==> v.spec_as_i64() is None),
        v matches JsonValue::Number(JsonNumber::NegInt(n)) ==> v.spec_as_i64() == Some(n),
        v matches JsonValue::Number(JsonNumber::Float(_)) ==> v.spec_as_i64() is None,
        !(v is Number) ==> v.spec_as_i64() is None,
{
}

} // verus!
