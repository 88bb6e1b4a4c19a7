//! The arguments of a tool call: the fields of a JSON object, with the
//! values that the tools read.

use vstd::prelude::*;

verus! {

/// An element of a JSON array: a string, a non-negative integer that fits
/// in `u64`, or anything else.
#[derive(Clone, Debug)]
pub enum ArgItem {
    Str(String),
    UInt(u64),
    Other,
}

/// A JSON value as the tools read it. Numbers are told apart only by whether
/// they are non-negative integers that fit in `u64`; nested objects are not
/// looked into.
#[derive(Clone, Debug)]
pub enum ArgValue {
    Null,
    Bool(bool),
    UInt(u64),
    OtherNumber,
    Str(String),
    Array(Vec<ArgItem>),
    Object,
}

/// The fields of a tool call's JSON argument object, in order. Arguments that
/// are not an object have no fields.
#[derive(Clone, Debug)]
pub struct ToolArgs {
    pub entries: Vec<(String, ArgValue)>,
}

/// The value of the first field named `key`.
pub open spec fn lookup(entries: Seq<(String, ArgValue)>, key: Seq<char>) -> Option<ArgValue>
    decreases entries.len(),
{
    if entries.len() == 0 {
        None
    } else if entries[0].0@ == key {
        Some(entries[0].1)
    } else {
        lookup(entries.drop_first(), key)
    }
}

/// The field `key` as a string, if it is one.
pub open spec fn str_arg(a: ToolArgs, key: Seq<char>) -> Option<Seq<char>> {
    match lookup(a.entries@, key) {
        Some(ArgValue::Str(s)) => Some(s@),
        _ => None,
    }
}

/// The field `key` as a boolean, if it is one.
pub open spec fn bool_arg(a: ToolArgs, key: Seq<char>) -> Option<bool> {
    match lookup(a.entries@, key) {
        Some(ArgValue::Bool(b)) => Some(b),
        _ => None,
    }
}

/// The field `key` as a `u64`, if it is a non-negative integer that fits.
pub open spec fn u64_arg(a: ToolArgs, key: Seq<char>) -> Option<u64> {
    match lookup(a.entries@, key) {
        Some(ArgValue::UInt(n)) => Some(n),
        _ => None,
    }
}

/// The elements of the field `key`, if it is an array.
pub open spec fn array_arg(a: ToolArgs, key: Seq<char>) -> Option<Seq<ArgItem>> {
    match lookup(a.entries@, key) {
        Some(ArgValue::Array(v)) => Some(v@),
        _ => None,
    }
}

/// `s`, or `d` when absent.
pub open spec fn or_default(s: Option<Seq<char>>, d: Seq<char>) -> Seq<char> {
    match s {
        Some(x) => x,
        None => d,
    }
}

impl ToolArgs {
    /// The value of the first field named `key`.
    pub fn get(&self, key: &str) -> (r: Option<&ArgValue>)
        ensures
            match lookup(self.entries@, key@) {
                Some(v) => r == Some(&v),
                None => r is None,
            },
    {
        let mut i: usize = 0;
        assert(self.entries@.subrange(0, self.entries.len() as int) =~= self.entries@);
        while i < self.entries.len()
            invariant
                i <= self.entries.len(),
                lookup(self.entries@, key@) == lookup(
                    self.entries@.subrange(i as int, self.entries.len() as int),
                    key@,
                ),
            decreases self.entries.len() - i,
        {
            let ghost rest = self.entries@.subrange(i as int, self.entries.len() as int);
            if crate::text::str_eq(self.entries[i].0.as_str(), key) {
                return Some(&self.entries[i].1);
            }
            assert(rest.drop_first() =~= self.entries@.subrange(
                i + 1,
                self.entries.len() as int,
            ));
            i = i + 1;
        }
        None
    }

    /// The field `key` as a string.
    pub fn get_str(&self, key: &str) -> (r: Option<String>)
        ensures
            match str_arg(*self, key@) {
                Some(s) => r matches Some(x) && x@ == s,
                None => r is None,
            },
    {
        match self.get(key) {
            Some(ArgValue::Str(s)) => Some(s.clone()),
            _ => None,
        }
    }

    /// The field `key` as a boolean.
    pub fn get_bool(&self, key: &str) -> (r: Option<bool>)
        ensures
            r == bool_arg(*self, key@),
    {
        match self.get(key) {
            Some(ArgValue::Bool(b)) => Some(*b),
            _ => None,
        }
    }

    /// The field `key` as a `u64`.
    pub fn get_u64(&self, key: &str) -> (r: Option<u64>)
        ensures
            r == u64_arg(*self, key@),
    {
        match self.get(key) {
            Some(ArgValue::UInt(n)) => Some(*n),
            _ => None,
        }
    }

    /// The elements of the array field `key`.
    pub fn get_array(&self, key: &str) -> (r: Option<&Vec<ArgItem>>)
        ensures
            match array_arg(*self, key@) {
                Some(v) => r matches Some(x) && x@ == v,
                None => r is None,
            },
    {
        match self.get(key) {
            Some(ArgValue::Array(v)) => Some(v),
            _ => None,
        }
    }
}

} // verus!
