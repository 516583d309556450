//! JSON values, as far as this crate reads into them: a value by itself, and
//! the members of an object one level down.

use vstd::prelude::*;
use vstd::string::*;
use crate::endpoint::entries::same_text;

verus! {

/// A JSON value taken by itself. Numbers with a fraction, arrays and objects
/// are not read into: they are `Other`.
#[derive(Debug, PartialEq, Eq, Hash)]
pub enum JsonScalar {
    Null,
    Bool(bool),
    /// A whole number from 0 to 2^64 - 1.
    Unsigned(u64),
    /// A whole number below 0, down to -2^63.
    Signed(i64),
    String(String),
    Other,
}

/// A JSON value: one taken by itself, or an object with its members in the
/// order in which they stand.
#[derive(Debug, PartialEq, Eq, Hash)]
pub enum JsonValue {
    Scalar(JsonScalar),
    Object(Vec<(String, JsonScalar)>),
}

/// The mathematical content of a [`JsonScalar`].
pub enum Scalar {
    Null,
    Bool(bool),
    Unsigned(u64),
    Signed(i64),
    Text(Seq<char>),
    Other,
}

/// The mathematical content of a [`JsonValue`].
pub enum Value {
    Scalar(Scalar),
    Object(Seq<(Seq<char>, Scalar)>),
}

impl View for JsonScalar {
    type V = Scalar;

    open spec fn view(&self) -> Scalar {
        match self {
            JsonScalar::Null => Scalar::Null,
            JsonScalar::Bool(b) => Scalar::Bool(*b),
            JsonScalar::Unsigned(n) => Scalar::Unsigned(*n),
            JsonScalar::Signed(i) => Scalar::Signed(*i),
            JsonScalar::String(s) => Scalar::Text(s@),
            JsonScalar::Other => Scalar::Other,
        }
    }
}

/// The members of an object, each with its name and the content of its value.
pub open spec fn members(entries: Seq<(String, JsonScalar)>) -> Seq<(Seq<char>, Scalar)> {
    Seq::new(entries.len(), |i: int| (entries[i].0@, entries[i].1@))
}

impl View for JsonValue {
    type V = Value;

    open spec fn view(&self) -> Value {
        match self {
            JsonValue::Scalar(s) => Value::Scalar(s@),
            JsonValue::Object(entries) => Value::Object(members(entries@)),
        }
    }
}

/// The first position at or after `from` of a member named `name`, or the
/// number of members when there is none.
pub open spec fn first_named(ms: Seq<(Seq<char>, Scalar)>, name: Seq<char>, from: int) -> int
    decreases ms.len() - from,
{
    if from >= ms.len() || (from >= 0 && ms[from].0 == name) {
        from
    } else {
        first_named(ms, name, from + 1)
    }
}

/// The value of the first member named `name`.
pub open spec fn member(ms: Seq<(Seq<char>, Scalar)>, name: Seq<char>) -> Option<Scalar> {
    let i = first_named(ms, name, 0);
    if 0 <= i < ms.len() {
        Some(ms[i].1)
    } else {
        None
    }
}

/// Two members or more are named `name`.
pub open spec fn named_twice(ms: Seq<(Seq<char>, Scalar)>, name: Seq<char>) -> bool {
    let i = first_named(ms, name, 0);
    0 <= i < ms.len() && first_named(ms, name, i + 1) < ms.len()
}

impl JsonScalar {
    /// A copy of this value.
    pub fn copy(&self) -> (r: JsonScalar)
        ensures
            r@ == self@,
    {
        match self {
            JsonScalar::Null => JsonScalar::Null,
            JsonScalar::Bool(b) => JsonScalar::Bool(*b),
            JsonScalar::Unsigned(n) => JsonScalar::Unsigned(*n),
            JsonScalar::Signed(i) => JsonScalar::Signed(*i),
            JsonScalar::String(s) => JsonScalar::String(s.clone()),
            JsonScalar::Other => JsonScalar::Other,
        }
    }
}

impl JsonValue {
    /// A copy of this value.
    pub fn copy(&self) -> (r: JsonValue)
        ensures
            r@ == self@,
    {
        match self {
            JsonValue::Scalar(s) => JsonValue::Scalar(s.copy()),
            JsonValue::Object(entries) => {
                let mut out: Vec<(String, JsonScalar)> = Vec::new();
                let mut i: usize = 0;
                while i < entries.len()
                    invariant
                        i <= entries.len(),
                        members(out@) == members(entries@).subrange(0, i as int),
                    decreases entries.len() - i,
                {
                    let ghost before = members(out@);
                    out.push((entries[i].0.clone(), entries[i].1.copy()));
                    proof {
                        assert(members(out@) =~= before.push(members(entries@)[i as int]));
                    }
                    i += 1;
                }
                proof {
                    assert(members(entries@).subrange(0, entries.len() as int) =~= members(
                        entries@,
                    ));
                }
                JsonValue::Object(out)
            },
        }
    }
}

/// The position of the first member named `name` at or after `from`.
pub fn find_member(entries: &Vec<(String, JsonScalar)>, name: &str, from: usize) -> (r: usize)
    ensures
        r == first_named(members(entries@), name@, from as int),
        from <= r,
        r <= entries.len() || r == from,
{
    let n: usize = entries.len();
    let mut i: usize = from;
    while i < n && !same_text(entries[i].0.as_str(), name)
        invariant
            from <= i,
            i <= n || i == from,
            n == entries.len(),
            first_named(members(entries@), name@, i as int) == first_named(
                members(entries@),
                name@,
                from as int,
            ),
        decreases n - i,
    {
        i += 1;
    }
    i
}

/// The value of the first member named `name`.
pub fn get_member<'a>(entries: &'a Vec<(String, JsonScalar)>, name: &str) -> (r: Option<
    &'a JsonScalar,
>)
    ensures
        match member(members(entries@), name@) {
            Some(v) => r.is_some() && r.unwrap()@ == v,
            None => r.is_none(),
        },
{
    let i: usize = find_member(entries, name, 0);
    if i < entries.len() {
        Some(&entries[i].1)
    } else {
        None
    }
}

/// Whether two members or more are named `name`.
pub fn is_named_twice(entries: &Vec<(String, JsonScalar)>, name: &str) -> (r: bool)
    ensures
        r == named_twice(members(entries@), name@),
{
    let i: usize = find_member(entries, name, 0);
    if i < entries.len() {
        find_member(entries, name, i + 1) < entries.len()
    } else {
        false
    }
}

/// What a value gives as a text that must be there.
pub open spec fn text_in(v: Option<Scalar>) -> Option<Seq<char>> {
    match v {
        Some(Scalar::Text(s)) => Some(s),
        _ => None,
    }
}

/// What a value gives as a text that may be missing or null; the outer
/// `None` is for a value of another type.
pub open spec fn optional_text_in(v: Option<Scalar>) -> Option<Option<Seq<char>>> {
    match v {
        None => Some(None),
        Some(Scalar::Null) => Some(None),
        Some(Scalar::Text(s)) => Some(Some(s)),
        _ => None,
    }
}

/// What a value gives as an unsigned 64-bit number that must be there.
pub open spec fn u64_in(v: Option<Scalar>) -> Option<u64> {
    match v {
        Some(Scalar::Unsigned(n)) => Some(n),
        _ => None,
    }
}

/// What a value gives as an unsigned 8-bit number that may be missing or
/// null; the outer `None` is for any other value.
pub open spec fn optional_u8_in(v: Option<Scalar>) -> Option<Option<u8>> {
    match v {
        None => Some(None),
        Some(Scalar::Null) => Some(None),
        Some(Scalar::Unsigned(n)) => if n <= 255 {
            Some(Some(n as u8))
        } else {
            None
        },
        _ => None,
    }
}

/// What a value gives as a boolean that must be there.
pub open spec fn bool_in(v: Option<Scalar>) -> Option<bool> {
    match v {
        Some(Scalar::Bool(b)) => Some(b),
        _ => None,
    }
}

/// The content of an optional string.
pub open spec fn text_view(s: Option<String>) -> Option<Seq<char>> {
    match s {
        Some(s) => Some(s@),
        None => None,
    }
}

/// Reads a text that must be there.
pub fn read_text(v: Option<&JsonScalar>) -> (r: Option<String>)
    ensures
        text_view(r) == text_in(scalar_view(v)),
{
    match v {
        Some(JsonScalar::String(s)) => Some(s.clone()),
        _ => None,
    }
}

/// The content of an optional value.
pub open spec fn scalar_view(v: Option<&JsonScalar>) -> Option<Scalar> {
    match v {
        Some(s) => Some(s@),
        None => None,
    }
}

/// Reads a text that may be missing or null.
pub fn read_optional_text(v: Option<&JsonScalar>) -> (r: Option<Option<String>>)
    ensures
        match optional_text_in(scalar_view(v)) {
            Some(t) => r.is_some() && text_view(r.unwrap()) == t,
            None => r.is_none(),
        },
{
    match v {
        None => Some(None),
        Some(JsonScalar::Null) => Some(None),
        Some(JsonScalar::String(s)) => Some(Some(s.clone())),
        _ => None,
    }
}

/// Reads an unsigned 64-bit number that must be there.
pub fn read_u64(v: Option<&JsonScalar>) -> (r: Option<u64>)
    ensures
        r == u64_in(scalar_view(v)),
{
    match v {
        Some(JsonScalar::Unsigned(n)) => Some(*n),
        _ => None,
    }
}

/// Reads an unsigned 8-bit number that may be missing or null.
pub fn read_optional_u8(v: Option<&JsonScalar>) -> (r: Option<Option<u8>>)
    ensures
        r == optional_u8_in(scalar_view(v)),
{
    match v {
        None => Some(None),
        Some(JsonScalar::Null) => Some(None),
        Some(JsonScalar::Unsigned(n)) => {
            if *n <= 255 {
                Some(Some(*n as u8))
            } else {
                None
            }
        },
        _ => None,
    }
}

/// Reads a boolean that must be there.
pub fn read_bool(v: Option<&JsonScalar>) -> (r: Option<bool>)
    ensures
        r == bool_in(scalar_view(v)),
{
    match v {
        Some(JsonScalar::Bool(b)) => Some(*b),
        _ => None,
    }
}

} // verus!
