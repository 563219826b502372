//! The JSON values this worker reads from the two remote services, and the
//! few ways it looks inside them.
//!
//! A number is kept as its decimal text: the worker never computes with
//! numbers, it only carries them through, and keeping the text avoids any
//! claim about floating-point representations.

use vstd::prelude::*;
use vstd::string::*;

verus! {

/// A JSON value as this worker models it.
pub enum Json {
    Null,
    Bool(bool),
    Num(String),
    Str(String),
    Arr(Vec<Json>),
    Obj(Vec<(String, Json)>),
}

/// The value bound to `key` in an entry list, taking the first match.
pub open spec fn lookup(entries: Seq<(String, Json)>, key: Seq<char>) -> Option<Json>
    decreases entries.len(),
{
    if entries.len() == 0 {
        None
    } else if entries[0].0@ == key {
        Some(entries[0].1)
    } else {
        lookup(entries.drop_first(), key)
    }
}

impl Json {
    /// The member named `key`, when this value is an object that has one.
    pub open spec fn spec_get(self, key: Seq<char>) -> Option<Json> {
        match self {
            Json::Obj(entries) => lookup(entries@, key),
            _ => None,
        }
    }

    /// The first element, when this value is a non-empty array.
    pub open spec fn spec_first(self) -> Option<Json> {
        match self {
            Json::Arr(items) => if items@.len() > 0 {
                Some(items@[0])
            } else {
                None
            },
            _ => None,
        }
    }

    /// The character sequence, when this value is a string.
    pub open spec fn spec_str(self) -> Option<Seq<char>> {
        match self {
            Json::Str(s) => Some(s@),
            _ => None,
        }
    }
}

/// Declares serde_json::Value so that the conversion below can name it.
#[verifier::external_type_specification]
#[verifier::external_body]
pub struct ExValue(serde_json::Value);

/// The value that a text parses to under the JSON grammar, or `None` where
/// the grammar rejects the text. The worker never states what this is on
/// given characters; it only passes the outcome on.
pub uninterp spec fn json_of(s: Seq<char>) -> Option<Json>;

/// Relies on serde_json::from_str: whether a text parses as JSON, and what
/// it parses to, depend on the characters of the text alone.
#[verifier::external_body]
pub(crate) fn parse_json(s: &str) -> (r: Option<Json>)
    ensures
        r == json_of(s@),
{
    match serde_json::from_str::<serde_json::Value>(s) {
        Ok(v) => Some(value_to_json(v)),
        Err(_) => None,
    }
}

/// Relies on serde_json::Value: each variant is carried to the matching
/// variant of `Json`, one arm per variant, a number by its decimal text.
/// Called only from `parse_json` above; what the composed call returns is
/// what the name `json_of` stands for, so nothing further is stated here.
#[verifier::external_body]
fn value_to_json(v: serde_json::Value) -> Json {
    match v {
        serde_json::Value::Null => Json::Null,
        serde_json::Value::Bool(b) => Json::Bool(b),
        serde_json::Value::Number(n) => Json::Num(n.to_string()),
        serde_json::Value::String(s) => Json::Str(s),
        serde_json::Value::Array(a) => Json::Arr(a.into_iter().map(value_to_json).collect()),
        serde_json::Value::Object(o) => Json::Obj(
            o.into_iter().map(|(k, m)| (k, value_to_json(m))).collect(),
        ),
    }
}

/// Character-for-character equality of two texts.
pub fn str_eq(a: &str, b: &str) -> (r: bool)
    ensures
        r == (a@ == b@),
{
    let an = a.unicode_len();
    let bn = b.unicode_len();
    if an != bn {
        return false;
    }
    let mut i: usize = 0;
    while i < an
        invariant
            an == a@.len(),
            bn == b@.len(),
            an == bn,
            i <= an,
            forall|k: int| 0 <= k < i ==> a@[k] == b@[k],
        decreases an - i,
    {
        if a.get_char(i) != b.get_char(i) {
            return false;
        }
        i += 1;
    }
    proof {
        assert(a@ =~= b@);
    }
    true
}

/// The member named `key` of an object value, taking the first match.
pub fn obj_get<'a>(j: &'a Json, key: &str) -> (r: Option<&'a Json>)
    ensures
        match r {
            Some(v) => j.spec_get(key@) == Some(*v),
            None => j.spec_get(key@) is None,
        },
{
    match j {
        Json::Obj(entries) => {
            let n = entries.len();
            let mut i: usize = 0;
            proof {
                assert(entries@.skip(0) =~= entries@);
            }
            while i < n
                invariant
                    n == entries@.len(),
                    i <= n,
                    j.spec_get(key@) == lookup(entries@, key@),
                    lookup(entries@, key@) == lookup(entries@.skip(i as int), key@),
                decreases n - i,
            {
                if str_eq(entries[i].0.as_str(), key) {
                    proof {
                        assert(entries@.skip(i as int)[0] == entries@[i as int]);
                        assert(lookup(entries@.skip(i as int), key@)
                            == Some(entries@[i as int].1));
                    }
                    return Some(&entries[i].1);
                }
                proof {
                    assert(entries@.skip(i as int)[0] == entries@[i as int]);
                    assert(entries@.skip(i as int).drop_first() =~= entries@.skip(i as int + 1));
                }
                i += 1;
            }
            proof {
                assert(entries@.skip(n as int) =~= Seq::<(String, Json)>::empty());
            }
            None
        },
        _ => None,
    }
}

/// The first element of an array value.
pub fn arr_first<'a>(j: &'a Json) -> (r: Option<&'a Json>)
    ensures
        match r {
            Some(v) => j.spec_first() == Some(*v),
            None => j.spec_first() is None,
        },
{
    match j {
        Json::Arr(items) => {
            if items.len() > 0 {
                Some(&items[0])
            } else {
                None
            }
        },
        _ => None,
    }
}

/// The text of a string value.
pub fn as_str_json<'a>(j: &'a Json) -> (r: Option<&'a String>)
    ensures
        match r {
            Some(s) => j.spec_str() == Some(s@),
            None => j.spec_str() is None,
        },
{
    match j {
        Json::Str(s) => Some(s),
        _ => None,
    }
}

} // verus!
