//! A JSON document as plain values.
use vstd::prelude::*;

verus! {

/// A JSON number, kept exactly as it was read.
#[derive(Debug)]
pub enum JsonNumber {
    /// A non-negative integer.
    PosInt(u64),
    /// A negative integer.
    NegInt(i64),
    /// A number with a fraction or an exponent, as its shortest decimal text.
    Float(String),
}

impl JsonNumber {
    /// A copy of the number.
    pub fn copy(&self) -> (r: JsonNumber)
        ensures
            r == *self,
    {
        match self {
            JsonNumber::PosInt(n) => JsonNumber::PosInt(*n),
            JsonNumber::NegInt(n) => JsonNumber::NegInt(*n),
            JsonNumber::Float(s) => JsonNumber::Float(s.clone()),
        }
    }
}

/// A JSON value.
#[derive(Debug)]
pub enum Json {
    /// `null`.
    Null,
    /// `true` or `false`.
    Bool(bool),
    /// A number.
    Number(JsonNumber),
    /// A string.
    Str(String),
    /// An array, its items in order.
    Array(Vec<Json>),
    /// An object, its members in order; where a key occurs twice the later
    /// member counts.
    Object(Vec<(String, Json)>),
}

/// The value of the last member named `key`, if any.
pub open spec fn lookup(fields: Seq<(String, Json)>, key: Seq<char>) -> Option<Json>
    decreases fields.len(),
{
    if fields.len() == 0 {
        None
    } else if fields.last().0@ == key {
        Some(fields.last().1)
    } else {
        lookup(fields.drop_last(), key)
    }
}

/// Finds the value of the member named `key`; the last one where the key
/// occurs more than once.
pub fn get_field<'a>(fields: &'a Vec<(String, Json)>, key: &str) -> (r: Option<&'a Json>)
    ensures
        match r {
            Some(v) => lookup(fields@, key@) == Some(*v),
            None => lookup(fields@, key@) is None,
        },
{
    let k = String::from_str(key);
    let mut i: usize = fields.len();
    assert(fields@.subrange(0, i as int) =~= fields@);
    while i > 0
        invariant
            i <= fields@.len(),
            k@ == key@,
            lookup(fields@, key@) == lookup(fields@.subrange(0, i as int), key@),
        decreases i,
    {
        let entry = &fields[i - 1];
        proof {
            let pre = fields@.subrange(0, i as int);
            assert(pre.drop_last() =~= fields@.subrange(0, i - 1));
            assert(pre.last() == fields@[i - 1]);
        }
        if entry.0 == k {
            return Some(&entry.1);
        }
        i = i - 1;
    }
    None
}

} // verus!
