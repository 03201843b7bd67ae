//! A JSON tree with optional-field accessors: a lookup tells whether a member
//! is there, a reading tells whether it has the type that is asked for.

use crate::text::str_eq;
use crate::time::{parse_timestamp, parsed_timestamp, Timestamp};
use vstd::prelude::*;

verus! {

/// A JSON number, as far as the engine reads it.
#[derive(Debug, Clone, Copy, PartialEq, Eq, Structural)]
pub enum JsonNumber {
    /// A non-negative integer that fits in 64 bits.
    Unsigned(u64),
    /// A negative integer that fits in 64 bits.
    Negative(i64),
    /// Any other number: a fraction, or an integer out of range.
    Other,
}

/// A JSON value. An object is held as its members in order; a lookup by key
/// finds the first member of that name.
#[derive(Debug)]
pub enum JsonValue {
    Null,
    Bool(bool),
    Number(JsonNumber),
    Text(String),
    Array(Vec<JsonValue>),
    Object(Vec<(String, JsonValue)>),
}

/// The value of the first member named `key` among `members`, if there is one.
pub open spec fn find_member(members: Seq<(String, JsonValue)>, key: Seq<char>) -> Option<
    JsonValue,
>
    decreases members.len(),
{
    if members.len() == 0 {
        None
    } else if members[0].0@ == key {
        Some(members[0].1)
    } else {
        find_member(members.drop_first(), key)
    }
}

impl JsonValue {
    /// The member named `key`, where this value is an object that has one.
    pub open spec fn spec_get(&self, key: Seq<char>) -> Option<JsonValue> {
        match self {
            JsonValue::Object(members) => find_member(members@, key),
            _ => None,
        }
    }

    /// The text, where this value is a string.
    pub open spec fn spec_as_str(&self) -> Option<Seq<char>> {
        match self {
            JsonValue::Text(s) => Some(s@),
            _ => None,
        }
    }

    /// The number, where this value is a non-negative integer that fits in 64 bits.
    pub open spec fn spec_as_u64(&self) -> Option<u64> {
        match self {
            JsonValue::Number(JsonNumber::Unsigned(n)) => Some(*n),
            _ => None,
        }
    }

    /// The elements, where this value is an array.
    pub open spec fn spec_as_array(&self) -> Option<Seq<JsonValue>> {
        match self {
            JsonValue::Array(items) => Some(items@),
            _ => None,
        }
    }

    /// Tells whether this value is JSON `null`.
    pub fn is_null(&self) -> (r: bool)
        ensures
            r == (*self is Null),
    {
        match self {
            JsonValue::Null => true,
            _ => false,
        }
    }

    /// Looks up the member named `key`. Returns `None` where this value is no
    /// object or has no such member.
    pub fn get(&self, key: &str) -> (r: Option<&JsonValue>)
        ensures
            match r {
                Some(v) => self.spec_get(key@) == Some(*v),
                None => self.spec_get(key@) is None,
            },
    {
        match self {
            JsonValue::Object(members) => {
                let mut i: usize = 0;
                assert(members@.skip(0) =~= members@);
                while i < members.len()
                    invariant
                        i <= members.len(),
                        self.spec_get(key@) == find_member(members@, key@),
                        find_member(members@, key@) == find_member(members@.skip(i as int), key@),
                    decreases members.len() - i,
                {
                    assert(members@.skip(i as int).drop_first() =~= members@.skip(i + 1));
                    assert(members@.skip(i as int)[0] == members@[i as int]);
                    if str_eq(members[i].0.as_str(), key) {
                        assert(find_member(members@.skip(i as int), key@) == Some(members@[i as int].1));
                        return Some(&members[i].1);
                    }
                    i += 1;
                }
                assert(members@.skip(i as int).len() == 0);
                None
            },
            _ => None,
        }
    }

    /// Reads this value as a string.
    pub fn as_str(&self) -> (r: Option<&str>)
        ensures
            match r {
                Some(s) => self.spec_as_str() == Some(s@),
                None => self.spec_as_str() is None,
            },
    {
        match self {
            JsonValue::Text(s) => Some(s.as_str()),
            _ => None,
        }
    }

    /// Reads this value as a non-negative integer.
    pub fn as_u64(&self) -> (r: Option<u64>)
        ensures
            r == self.spec_as_u64(),
    {
        match self {
            JsonValue::Number(JsonNumber::Unsigned(n)) => Some(*n),
            _ => None,
        }
    }

    /// Reads this value as an array.
    pub fn as_array(&self) -> (r: Option<&Vec<JsonValue>>)
        ensures
            match r {
                Some(items) => self.spec_as_array() == Some(items@),
                None => self.spec_as_array() is None,
            },
    {
        match self {
            JsonValue::Array(items) => Some(items),
            _ => None,
        }
    }
}

/// The characters of an optional string slice.
pub open spec fn opt_str_text(o: Option<&str>) -> Option<Seq<char>> {
    match o {
        Some(s) => Some(s@),
        None => None,
    }
}

/// The text of the member `key` of `v`: absent where `v` has no such member
/// or where the member is no string.
pub open spec fn text_at(v: JsonValue, key: Seq<char>) -> Option<Seq<char>> {
    match v.spec_get(key) {
        Some(member) => member.spec_as_str(),
        None => None,
    }
}

/// The non-negative integer in the member `key` of `v`: absent where `v` has
/// no such member or where the member is no such number.
pub open spec fn u64_at(v: JsonValue, key: Seq<char>) -> Option<u64> {
    match v.spec_get(key) {
        Some(member) => member.spec_as_u64(),
        None => None,
    }
}

/// The instant in the member `key` of `v`: absent where `v` has no such
/// member, where the member is no string, or where the string is no timestamp.
pub open spec fn time_at(v: JsonValue, key: Seq<char>) -> Option<Timestamp> {
    match text_at(v, key) {
        Some(text) => parsed_timestamp(text),
        None => None,
    }
}

/// Reads the member `key` of `v` as a string.
pub fn text_field<'a>(v: &'a JsonValue, key: &str) -> (r: Option<&'a str>)
    ensures
        opt_str_text(r) == text_at(*v, key@),
{
    match v.get(key) {
        Some(member) => member.as_str(),
        None => None,
    }
}

/// Reads the member `key` of `v` as a non-negative integer.
pub fn u64_field(v: &JsonValue, key: &str) -> (r: Option<u64>)
    ensures
        r == u64_at(*v, key@),
{
    match v.get(key) {
        Some(member) => member.as_u64(),
        None => None,
    }
}

/// Reads the member `key` of `v` as a timestamp.
pub fn time_field(v: &JsonValue, key: &str) -> (r: Option<Timestamp>)
    ensures
        r == time_at(*v, key@),
{
    match text_field(v, key) {
        Some(text) => parse_timestamp(text),
        None => None,
    }
}

} // verus!
