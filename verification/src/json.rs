//! A JSON document tree, as the VRM extension readers see it.

use vstd::prelude::*;
use crate::table::assoc;
use crate::text::str_eq;

verus! {

/// A JSON value. Objects list their members in the order the JSON reader
/// yields them (key order for a reader that sorts its maps). A number keeps
/// its value as an unsigned integer, when it is one that fits in 64 bits, and
/// the bit pattern of its value as a 64-bit float, which the readers carry
/// through without reading it.
#[derive(Debug)]
pub enum JsonValue {
    Null,
    Bool(bool),
    Number(Option<u64>, u64),
    String(String),
    Array(Vec<JsonValue>),
    Object(Vec<(String, JsonValue)>),
}

/// The members of an object, keyed by the views of their names.
pub open spec fn members_view(es: Seq<(String, JsonValue)>) -> Seq<(Seq<char>, JsonValue)> {
    es.map_values(|e: (String, JsonValue)| (e.0@, e.1))
}

impl JsonValue {
    /// The member `key` of an object (the first one of that name); none for other values.
    pub open spec fn field(self, key: Seq<char>) -> Option<JsonValue> {
        match self {
            JsonValue::Object(es) => assoc(members_view(es@), key),
            _ => None,
        }
    }

    /// The value as an unsigned integer, when it is one.
    pub open spec fn u64_value(self) -> Option<u64> {
        match self {
            JsonValue::Number(n, _) => n,
            _ => None,
        }
    }

    /// The bit pattern of a number's 64-bit float value.
    pub open spec fn f64_bits_value(self) -> Option<u64> {
        match self {
            JsonValue::Number(_, bits) => Some(bits),
            _ => None,
        }
    }

    /// The text of a string value.
    pub open spec fn str_value(self) -> Option<Seq<char>> {
        match self {
            JsonValue::String(s) => Some(s@),
            _ => None,
        }
    }

    /// The value of a boolean.
    pub open spec fn bool_value(self) -> Option<bool> {
        match self {
            JsonValue::Bool(b) => Some(b),
            _ => None,
        }
    }

    /// The member `key` of an object value.
    pub fn get(&self, key: &str) -> (r: Option<&JsonValue>)
        ensures
            match r {
                Some(v) => self.field(key@) == Some(*v),
                None => self.field(key@) is None,
            },
    {
        match self {
            JsonValue::Object(es) => {
                let n = es.len();
                let ghost t = members_view(es@);
                let mut i: usize = 0;
                assert(t.skip(0) =~= t);
                while i < n
                    invariant
                        n == es@.len(),
                        t == members_view(es@),
                        self.field(key@) == assoc(t, key@),
                        i <= n,
                        assoc(t, key@) == assoc(t.skip(i as int), key@),
                    decreases n - i,
                {
                    assert(t.skip(i as int)[0] == (es@[i as int].0@, es@[i as int].1));
                    if str_eq(es[i].0.as_str(), key) {
                        return Some(&es[i].1);
                    }
                    assert(t.skip(i as int).drop_first() =~= t.skip(i + 1));
                    i += 1;
                }
                None
            },
            _ => None,
        }
    }

    /// The value as an unsigned integer, when it is one.
    pub fn as_u64(&self) -> (r: Option<u64>)
        ensures
            r == self.u64_value(),
    {
        match self {
            JsonValue::Number(n, _) => *n,
            _ => None,
        }
    }

    /// The bit pattern of a number's 64-bit float value.
    pub fn as_f64_bits(&self) -> (r: Option<u64>)
        ensures
            r == self.f64_bits_value(),
    {
        match self {
            JsonValue::Number(_, bits) => Some(*bits),
            _ => None,
        }
    }

    /// The text of a string value.
    pub fn as_str(&self) -> (r: Option<&str>)
        ensures
            match r {
                Some(s) => self.str_value() == Some(s@),
                None => self.str_value() is None,
            },
    {
        match self {
            JsonValue::String(s) => Some(s.as_str()),
            _ => None,
        }
    }

    /// The value of a boolean.
    pub fn as_bool(&self) -> (r: Option<bool>)
        ensures
            r == self.bool_value(),
    {
        match self {
            JsonValue::Bool(b) => Some(*b),
            _ => None,
        }
    }

    /// The elements of an array value.
    pub fn as_array(&self) -> (r: Option<&Vec<JsonValue>>)
        ensures
            match r {
                Some(a) => *self == JsonValue::Array(*a),
                None => !(*self is Array),
            },
    {
        match self {
            JsonValue::Array(a) => Some(a),
            _ => None,
        }
    }

    /// The members of an object value.
    pub fn as_object(&self) -> (r: Option<&Vec<(String, JsonValue)>>)
        ensures
            match r {
                Some(es) => *self == JsonValue::Object(*es),
                None => !(*self is Object),
            },
    {
        match self {
            JsonValue::Object(es) => Some(es),
            _ => None,
        }
    }
}

} // verus!

verus! {

/// The unsigned integer member `key` of an object.
pub open spec fn member_u64(v: JsonValue, key: Seq<char>) -> Option<u64> {
    match v.field(key) {
        Some(x) => x.u64_value(),
        None => None,
    }
}

/// The elements of the array member `key` of an object; none when it is absent or no array.
pub open spec fn array_member(v: JsonValue, key: Seq<char>) -> Seq<JsonValue> {
    match v.field(key) {
        Some(JsonValue::Array(a)) => a@,
        _ => Seq::empty(),
    }
}

/// The members of the object member `key` of an object; none when it is absent or no object.
pub open spec fn object_member(v: JsonValue, key: Seq<char>) -> Seq<(Seq<char>, JsonValue)> {
    match v.field(key) {
        Some(JsonValue::Object(es)) => members_view(es@),
        _ => Seq::empty(),
    }
}

/// The boolean member `key` of an object; false when it is absent or no boolean.
pub open spec fn bool_member(v: JsonValue, key: Seq<char>) -> bool {
    match v.field(key) {
        Some(x) => match x.bool_value() {
            Some(b) => b,
            None => false,
        },
        None => false,
    }
}

/// The string member `key` of an object, or `default` when it is absent or no string.
pub open spec fn str_member_or(v: JsonValue, key: Seq<char>, default: Seq<char>) -> Seq<char> {
    match v.field(key) {
        Some(x) => match x.str_value() {
            Some(s) => s,
            None => default,
        },
        None => default,
    }
}

/// The unsigned integer member `key` of an object.
pub(crate) fn get_u64(v: &JsonValue, key: &str) -> (r: Option<u64>)
    ensures
        r == member_u64(*v, key@),
{
    match v.get(key) {
        Some(x) => x.as_u64(),
        None => None,
    }
}

/// The boolean member `key` of an object; false when it is absent or no boolean.
pub(crate) fn get_bool(v: &JsonValue, key: &str) -> (r: bool)
    ensures
        r == bool_member(*v, key@),
{
    match v.get(key) {
        Some(x) => match x.as_bool() {
            Some(b) => b,
            None => false,
        },
        None => false,
    }
}

/// The string member `key` of an object, or `default`.
pub(crate) fn get_str_or<'a>(v: &'a JsonValue, key: &str, default: &'a str) -> (r: &'a str)
    ensures
        r@ == str_member_or(*v, key@, default@),
{
    match v.get(key) {
        Some(x) => match x.as_str() {
            Some(s) => s,
            None => default,
        },
        None => default,
    }
}

} // verus!

verus! {

/// The bit pattern of the 64-bit float value of the number member `key` of an object.
pub open spec fn member_f64_bits(v: JsonValue, key: Seq<char>) -> Option<u64> {
    match v.field(key) {
        Some(x) => x.f64_bits_value(),
        None => None,
    }
}

/// The text of the string member `key` of an object.
pub open spec fn member_str(v: JsonValue, key: Seq<char>) -> Option<Seq<char>> {
    match v.field(key) {
        Some(x) => x.str_value(),
        None => None,
    }
}

/// The bit pattern of the 64-bit float value of the number member `key` of an object.
pub(crate) fn get_f64_bits(v: &JsonValue, key: &str) -> (r: Option<u64>)
    ensures
        r == member_f64_bits(*v, key@),
{
    match v.get(key) {
        Some(x) => x.as_f64_bits(),
        None => None,
    }
}

/// The string member `key` of an object.
pub(crate) fn get_str<'a>(v: &'a JsonValue, key: &str) -> (r: Option<&'a str>)
    ensures
        match r {
            Some(s) => member_str(*v, key@) == Some(s@),
            None => member_str(*v, key@) is None,
        },
{
    match v.get(key) {
        Some(x) => x.as_str(),
        None => None,
    }
}

} // verus!
