use vstd::prelude::*;

use crate::text::str_equal;
use vstd::string::StringExecFns;

verus! {

/// A JSON document as the library handles it. Object members keep the
/// order in which they were given; integers carry their exact value, other
/// numbers their textual form.
#[derive(Debug, PartialEq)]
pub enum Json {
    Null,
    Bool(bool),
    Int(i128),
    Float(String),
    Str(String),
    Array(Vec<Json>),
    Object(Vec<(String, Json)>),
}

/// The value of the first member named `key`, if any.
pub open spec fn member(entries: Seq<(String, Json)>, key: Seq<char>) -> Option<Json>
    decreases entries.len(),
{
    if entries.len() == 0 {
        None
    } else if entries[0].0@ == key {
        Some(entries[0].1)
    } else {
        member(entries.drop_first(), key)
    }
}

/// `j[key]` for an object, nothing for any other value.
pub open spec fn field(j: Json, key: Seq<char>) -> Option<Json> {
    match j {
        Json::Object(entries) => member(entries@, key),
        _ => None,
    }
}

/// The text of a string value.
pub open spec fn as_text(j: Option<Json>) -> Option<Seq<char>> {
    match j {
        Some(Json::Str(s)) => Some(s@),
        _ => None,
    }
}

/// An integer value that fits in `i64`.
pub open spec fn as_i64(j: Option<Json>) -> Option<i64> {
    match j {
        Some(Json::Int(n)) => if i64::MIN <= n <= i64::MAX {
            Some(n as i64)
        } else {
            None
        },
        _ => None,
    }
}

/// A boolean value.
pub open spec fn as_bool(j: Option<Json>) -> Option<bool> {
    match j {
        Some(Json::Bool(b)) => Some(b),
        _ => None,
    }
}

impl Json {
    /// The member `key` of an object; `None` for a missing member or a
    /// value that is not an object.
    pub fn get(&self, key: &str) -> (r: Option<&Json>)
        ensures
            r is Some <==> field(*self, key@) is Some,
            r is Some ==> field(*self, key@) == Some(*r->0),
    {
        match self {
            Json::Object(entries) => {
                let mut i: usize = 0;
                assert(entries@.subrange(0, entries@.len() as int) =~= entries@);
                while i < entries.len()
                    invariant
                        i <= entries@.len(),
                        field(*self, key@) == member(entries@, key@),
                        member(entries@, key@) == member(entries@.subrange(i as int, entries@.len() as int), key@),
                    decreases entries@.len() - i,
                {
                    let ghost rest = entries@.subrange(i as int, entries@.len() as int);
                    assert(rest.drop_first() =~= entries@.subrange(i + 1, entries@.len() as int));
                    assert(rest[0] == entries@[i as int]);
                    if str_equal(entries[i].0.as_str(), key) {
                        return Some(&entries[i].1);
                    }
                    i = i + 1;
                }
                None
            },
            _ => None,
        }
    }

    /// A string value as text.
    pub fn as_str(&self) -> (r: Option<&str>)
        ensures
            r is Some <==> self is Str,
            r is Some ==> Some(r->0@) == as_text(Some(*self)),
    {
        match self {
            Json::Str(s) => Some(s.as_str()),
            _ => None,
        }
    }
}

/// Optional text: a missing member or `null` is `Some(None)`, text is
/// `Some(Some(..))`, any other value does not fit.
pub open spec fn opt_text(m: Option<Json>) -> Option<Option<Seq<char>>> {
    match m {
        None => Some(None),
        Some(Json::Null) => Some(None),
        Some(Json::Str(s)) => Some(Some(s@)),
        _ => None,
    }
}

/// Optional boolean, read as `opt_text` reads text.
pub open spec fn opt_bool(m: Option<Json>) -> Option<Option<bool>> {
    match m {
        None => Some(None),
        Some(Json::Null) => Some(None),
        Some(Json::Bool(b)) => Some(Some(b)),
        _ => None,
    }
}

pub open spec fn opt_string_view(s: Option<String>) -> Option<Seq<char>> {
    match s {
        Some(t) => Some(t@),
        None => None,
    }
}

/// The names of an object's members, in order.
pub open spec fn keys(j: Json) -> Seq<Seq<char>> {
    match j {
        Json::Object(entries) => entries@.map_values(|e: (String, Json)| e.0@),
        _ => Seq::empty(),
    }
}

/// `field(j, key)` read as optional text.
pub fn opt_text_field(j: &Json, key: &str) -> (r: Option<Option<String>>)
    ensures
        r is Some <==> opt_text(field(*j, key@)) is Some,
        r is Some ==> opt_text(field(*j, key@)) == Some(opt_string_view(r->0)),
{
    match j.get(key) {
        None => Some(None),
        Some(Json::Null) => Some(None),
        Some(Json::Str(s)) => Some(Some(s.clone())),
        _ => None,
    }
}

/// `field(j, key)` read as an optional boolean.
pub fn opt_bool_field(j: &Json, key: &str) -> (r: Option<Option<bool>>)
    ensures
        r == opt_bool(field(*j, key@)),
{
    match j.get(key) {
        None => Some(None),
        Some(Json::Null) => Some(None),
        Some(Json::Bool(b)) => Some(Some(*b)),
        _ => None,
    }
}

/// Moves the member `key` out of an object.
pub fn take_field(j: Json, key: &str) -> (r: Option<Json>)
    ensures
        r == field(j, key@),
{
    let ghost j0 = j;
    match j {
        Json::Object(entries) => {
            let ghost orig = entries@;
            let mut src = entries;
            let mut k: usize = 0;
            assert(src@.len() == src.len());
            while src.len() > 0
                invariant
                    j0 == j,
                    field(j0, key@) == member(orig, key@),
                    k + src@.len() == orig.len(),
                    orig.len() <= usize::MAX,
                    src@ == orig.subrange(k as int, orig.len() as int),
                    member(orig, key@) == member(src@, key@),
                decreases src@.len(),
            {
                let ghost before = src@;
                let (name, value) = src.remove(0);
                assert(before.drop_first() =~= src@);
                if str_equal(name.as_str(), key) {
                    return Some(value);
                }
                k = k + 1;
                assert(src@ =~= orig.subrange(k as int, orig.len() as int));
            }
            None
        },
        _ => None,
    }
}

/// A text value.
pub fn text(s: &str) -> (r: Json)
    ensures
        as_text(Some(r)) == Some(s@),
{
    Json::Str(String::from_str(s))
}

/// `field(j, key)` read as text.
pub fn text_field(j: &Json, key: &str) -> (r: Option<String>)
    ensures
        r is Some <==> as_text(field(*j, key@)) is Some,
        r is Some ==> Some(r->0@) == as_text(field(*j, key@)),
{
    match j.get(key) {
        Some(Json::Str(s)) => Some(s.clone()),
        _ => None,
    }
}

/// `field(j, key)` read as an `i64`.
pub fn i64_field(j: &Json, key: &str) -> (r: Option<i64>)
    ensures
        r == as_i64(field(*j, key@)),
{
    match j.get(key) {
        Some(Json::Int(n)) => {
            if i64::MIN as i128 <= *n && *n <= i64::MAX as i128 {
                Some(*n as i64)
            } else {
                None
            }
        },
        _ => None,
    }
}

/// `field(j, key)` read as a boolean.
pub fn bool_field(j: &Json, key: &str) -> (r: Option<bool>)
    ensures
        r == as_bool(field(*j, key@)),
{
    match j.get(key) {
        Some(Json::Bool(b)) => Some(*b),
        _ => None,
    }
}

} // verus!
