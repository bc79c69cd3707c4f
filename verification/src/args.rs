//! The arguments of a request as plain values, and the typed accessors that
//! read them.
use vstd::prelude::*;
use vstd::string::*;

use crate::text::{str_eq, concat2};

verus! {

/// A JSON value as the request logic reads it.
pub enum ArgValue {
    Null,
    Bool(bool),
    /// A number that is a non-negative integer fitting in `u64`.
    UInt(u64),
    /// Any other number: negative, fractional or too large.
    OtherNumber,
    Str(String),
    Array(Vec<ArgValue>),
    /// The members of an object, in order; a key is looked up at its first
    /// member.
    Object(Vec<(String, ArgValue)>),
}

/// The value of the first member named `key`.
pub open spec fn lookup(entries: Seq<(String, ArgValue)>, key: Seq<char>) -> Option<ArgValue>
    decreases entries.len(),
{
    if entries.len() == 0 {
        None
    } else if entries[0].0@ == key {
        Some(entries[0].1)
    } else {
        lookup(entries.drop_first(), key)
    }
}

/// The member `key` of an object; nothing for any other value.
pub open spec fn member(v: ArgValue, key: Seq<char>) -> Option<ArgValue> {
    match v {
        ArgValue::Object(entries) => lookup(entries@, key),
        _ => None,
    }
}

/// The text of a string value.
pub open spec fn as_text(v: ArgValue) -> Option<Seq<char>> {
    match v {
        ArgValue::Str(s) => Some(s@),
        _ => None,
    }
}

/// The member `key` when it is a string.
pub open spec fn str_member(v: ArgValue, key: Seq<char>) -> Option<Seq<char>> {
    match member(v, key) {
        Some(x) => as_text(x),
        None => None,
    }
}

/// The member `key` when it is a boolean.
pub open spec fn bool_member(v: ArgValue, key: Seq<char>) -> Option<bool> {
    match member(v, key) {
        Some(ArgValue::Bool(b)) => Some(b),
        _ => None,
    }
}

/// The member `key` when it is a non-negative integer fitting in `u64`.
pub open spec fn u64_member(v: ArgValue, key: Seq<char>) -> Option<u64> {
    match member(v, key) {
        Some(ArgValue::UInt(n)) => Some(n),
        _ => None,
    }
}

/// The texts of the string items of a sequence of values, in order.
pub open spec fn text_items(items: Seq<ArgValue>) -> Seq<Seq<char>>
    decreases items.len(),
{
    if items.len() == 0 {
        seq![]
    } else {
        let rest = text_items(items.drop_last());
        match as_text(items.last()) {
            Some(t) => rest.push(t),
            None => rest,
        }
    }
}

/// The string items of the member `key` when it is an array; empty when it
/// is missing or not an array.
pub open spec fn str_items_member(v: ArgValue, key: Seq<char>) -> Seq<Seq<char>> {
    match member(v, key) {
        Some(ArgValue::Array(items)) => text_items(items@),
        _ => seq![],
    }
}

/// The message for a missing string argument.
pub open spec fn missing_argument_message(key: Seq<char>) -> Seq<char> {
    "missing required string argument: "@ + key
}

/// The member `key` of `args`, when `args` is an object that has one.
pub fn get<'a>(args: &'a ArgValue, key: &str) -> (r: Option<&'a ArgValue>)
    ensures
        match r {
            Some(x) => member(*args, key@) == Some(*x),
            None => member(*args, key@) is None,
        },
{
    match args {
        ArgValue::Object(entries) => {
            let mut i: usize = 0;
            assert(entries@.skip(0) =~= entries@);
            while i < entries.len()
                invariant
                    i <= entries.len(),
                    member(*args, key@) == lookup(entries@, key@),
                    lookup(entries@, key@) == lookup(entries@.skip(i as int), key@),
                decreases entries.len() - i,
            {
                assert(entries@.skip(i as int)[0] == entries@[i as int]);
                if str_eq(entries[i].0.as_str(), key) {
                    assert(lookup(entries@.skip(i as int), key@) == Some(entries@[i as int].1));
                    return Some(&entries[i].1);
                }
                assert(entries@.skip(i as int).drop_first() =~= entries@.skip(i + 1));
                i += 1;
            }
            None
        },
        _ => None,
    }
}

/// A required string argument.
pub fn arg_str<'a>(args: &'a ArgValue, key: &str) -> (r: Result<&'a str, String>)
    ensures
        match str_member(*args, key@) {
            Some(s) => r matches Ok(x) && x@ == s,
            None => r matches Err(e) && e@ == missing_argument_message(key@),
        },
{
    match get(args, key) {
        Some(ArgValue::Str(s)) => Ok(s.as_str()),
        _ => Err(concat2("missing required string argument: ", key)),
    }
}

/// An optional string argument.
pub fn arg_str_opt<'a>(args: &'a ArgValue, key: &str) -> (r: Option<&'a str>)
    ensures
        match str_member(*args, key@) {
            Some(s) => r matches Some(x) && x@ == s,
            None => r is None,
        },
{
    match get(args, key) {
        Some(ArgValue::Str(s)) => Some(s.as_str()),
        _ => None,
    }
}

/// A boolean argument, `default` when it is missing or not a boolean.
pub fn arg_bool(args: &ArgValue, key: &str, default: bool) -> (r: bool)
    ensures
        r == match bool_member(*args, key@) {
            Some(b) => b,
            None => default,
        },
{
    match get(args, key) {
        Some(ArgValue::Bool(b)) => *b,
        _ => default,
    }
}

/// An integer argument cut to its low 32 bits (as a cast to `u32` does),
/// `default` when it is missing or not a non-negative integer.
pub fn arg_u32(args: &ArgValue, key: &str, default: u32) -> (r: u32)
    ensures
        r == match u64_member(*args, key@) {
            Some(n) => (n % 0x1_0000_0000) as u32,
            None => default,
        },
{
    match get(args, key) {
        Some(ArgValue::UInt(n)) => {
            let n = *n;
            assert((n as u32) == n % 0x1_0000_0000) by (bit_vector);
            #[verifier::truncate]
            (n as u32)
        },
        _ => default,
    }
}

/// An optional integer argument: present when it is a non-negative integer
/// that fits in `u64`.
pub fn arg_u64_opt(args: &ArgValue, key: &str) -> (r: Option<u64>)
    ensures
        r == u64_member(*args, key@),
{
    match get(args, key) {
        Some(ArgValue::UInt(n)) => Some(*n),
        _ => None,
    }
}

/// The string items of an array argument, empty when it is missing or not
/// an array.
pub fn arg_str_array(args: &ArgValue, key: &str) -> (r: Vec<String>)
    ensures
        crate::text::views(r@) == str_items_member(*args, key@),
{
    let mut r: Vec<String> = Vec::new();
    match get(args, key) {
        Some(ArgValue::Array(items)) => {
            let mut i: usize = 0;
            while i < items.len()
                invariant
                    i <= items.len(),
                    crate::text::views(r@) == text_items(items@.take(i as int)),
                decreases items.len() - i,
            {
                assert(items@.take(i + 1).drop_last() =~= items@.take(i as int));
                assert(items@.take(i + 1).last() == items@[i as int]);
                match &items[i] {
                    ArgValue::Str(s) => {
                        r.push(s.clone());
                        assert(crate::text::views(r@) =~= crate::text::views(r@.drop_last()).push(s@));
                    },
                    _ => {},
                }
                i += 1;
            }
            assert(items@.take(items.len() as int) =~= items@);
        },
        _ => {
            assert(crate::text::views(r@) =~= seq![]);
        },
    }
    r
}

} // verus!
