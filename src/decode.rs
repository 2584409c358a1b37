//! Reading typed values out of a JSON document.
use vstd::prelude::*;

use crate::error::DecodeError;
use crate::json::{Json, JsonNumber, get_field, lookup};
use crate::model::Search;

verus! {

/// The error of a failed step, if it failed.
pub open spec fn fail<T>(r: Result<T, DecodeError>) -> Option<DecodeError> {
    match r {
        Ok(_) => None,
        Err(e) => Some(e),
    }
}

/// The first of two possible errors.
pub open spec fn first(a: Option<DecodeError>, b: Option<DecodeError>) -> Option<DecodeError> {
    if a is Some {
        a
    } else {
        b
    }
}

/// A required unsigned integer member.
pub open spec fn u64_field(fields: Seq<(String, Json)>, key: &'static str) -> Result<
    u64,
    DecodeError,
> {
    match lookup(fields, key@) {
        None => Err(DecodeError::MissingField(key)),
        Some(Json::Number(JsonNumber::PosInt(n))) => Ok(n),
        Some(_) => Err(DecodeError::WrongType(key)),
    }
}

/// A required string member.
pub open spec fn string_field(fields: Seq<(String, Json)>, key: &'static str) -> Result<
    String,
    DecodeError,
> {
    match lookup(fields, key@) {
        None => Err(DecodeError::MissingField(key)),
        Some(Json::Str(s)) => Ok(s),
        Some(_) => Err(DecodeError::WrongType(key)),
    }
}

/// A required number member, of any kind.
pub open spec fn number_field(fields: Seq<(String, Json)>, key: &'static str) -> Result<
    JsonNumber,
    DecodeError,
> {
    match lookup(fields, key@) {
        None => Err(DecodeError::MissingField(key)),
        Some(Json::Number(n)) => Ok(n),
        Some(_) => Err(DecodeError::WrongType(key)),
    }
}

/// An optional string member: absent or `null` is no value.
pub open spec fn opt_string_field(fields: Seq<(String, Json)>, key: &'static str) -> Result<
    Option<String>,
    DecodeError,
> {
    match lookup(fields, key@) {
        None => Ok(None),
        Some(Json::Null) => Ok(None),
        Some(Json::Str(s)) => Ok(Some(s)),
        Some(_) => Err(DecodeError::WrongType(key)),
    }
}

/// An optional unsigned integer member: absent or `null` is no value.
pub open spec fn opt_u64_field(fields: Seq<(String, Json)>, key: &'static str) -> Result<
    Option<u64>,
    DecodeError,
> {
    match lookup(fields, key@) {
        None => Ok(None),
        Some(Json::Null) => Ok(None),
        Some(Json::Number(JsonNumber::PosInt(n))) => Ok(Some(n)),
        Some(_) => Err(DecodeError::WrongType(key)),
    }
}

/// The strings of an array whose items are all strings.
pub open spec fn strings_of(items: Seq<Json>) -> Option<Seq<String>>
    decreases items.len(),
{
    if items.len() == 0 {
        Some(Seq::empty())
    } else {
        match (strings_of(items.drop_last()), items.last()) {
            (Some(init), Json::Str(s)) => Some(init.push(s)),
            _ => None,
        }
    }
}

/// A list-of-strings member that defaults to empty where it is absent.
pub open spec fn list_field(fields: Seq<(String, Json)>, key: &'static str) -> Result<
    Seq<String>,
    DecodeError,
> {
    match lookup(fields, key@) {
        None => Ok(Seq::empty()),
        Some(Json::Array(items)) => match strings_of(items@) {
            Some(v) => Ok(v),
            None => Err(DecodeError::WrongType(key)),
        },
        Some(_) => Err(DecodeError::WrongType(key)),
    }
}

/// Reads a required unsigned integer member.
pub fn read_u64(fields: &Vec<(String, Json)>, key: &'static str) -> (r: Result<u64, DecodeError>)
    ensures
        r == u64_field(fields@, key),
{
    match get_field(fields, key) {
        None => Err(DecodeError::MissingField(key)),
        Some(Json::Number(JsonNumber::PosInt(n))) => Ok(*n),
        Some(_) => Err(DecodeError::WrongType(key)),
    }
}

/// Reads a required string member.
pub fn read_string(fields: &Vec<(String, Json)>, key: &'static str) -> (r: Result<
    String,
    DecodeError,
>)
    ensures
        r == string_field(fields@, key),
{
    match get_field(fields, key) {
        None => Err(DecodeError::MissingField(key)),
        Some(Json::Str(s)) => Ok(s.clone()),
        Some(_) => Err(DecodeError::WrongType(key)),
    }
}

/// Reads a required number member.
pub fn read_number(fields: &Vec<(String, Json)>, key: &'static str) -> (r: Result<
    JsonNumber,
    DecodeError,
>)
    ensures
        r == number_field(fields@, key),
{
    match get_field(fields, key) {
        None => Err(DecodeError::MissingField(key)),
        Some(Json::Number(n)) => Ok(n.copy()),
        Some(_) => Err(DecodeError::WrongType(key)),
    }
}

/// Reads an optional string member.
pub fn read_opt_string(fields: &Vec<(String, Json)>, key: &'static str) -> (r: Result<
    Option<String>,
    DecodeError,
>)
    ensures
        r == opt_string_field(fields@, key),
{
    match get_field(fields, key) {
        None => Ok(None),
        Some(Json::Null) => Ok(None),
        Some(Json::Str(s)) => Ok(Some(s.clone())),
        Some(_) => Err(DecodeError::WrongType(key)),
    }
}

/// Reads an optional unsigned integer member.
pub fn read_opt_u64(fields: &Vec<(String, Json)>, key: &'static str) -> (r: Result<
    Option<u64>,
    DecodeError,
>)
    ensures
        r == opt_u64_field(fields@, key),
{
    match get_field(fields, key) {
        None => Ok(None),
        Some(Json::Null) => Ok(None),
        Some(Json::Number(JsonNumber::PosInt(n))) => Ok(Some(*n)),
        Some(_) => Err(DecodeError::WrongType(key)),
    }
}

/// Reads a list-of-strings member; an absent member is an empty list.
pub fn read_list(fields: &Vec<(String, Json)>, key: &'static str) -> (r: Result<
    Vec<String>,
    DecodeError,
>)
    ensures
        match r {
            Ok(v) => list_field(fields@, key) == Ok::<Seq<String>, DecodeError>(v@),
            Err(e) => list_field(fields@, key) == Err::<Seq<String>, DecodeError>(e),
        },
{
    match get_field(fields, key) {
        None => Ok(Vec::new()),
        Some(Json::Array(items)) => {
            let mut out: Vec<String> = Vec::new();
            let mut i: usize = 0;
            while i < items.len()
                invariant
                    i <= items@.len(),
                    strings_of(items@.subrange(0, i as int)) == Some(out@),
                    lookup(fields@, key@) == Some(Json::Array(*items)),
                decreases items.len() - i,
            {
                proof {
                    let pre = items@.subrange(0, i + 1);
                    assert(pre.drop_last() =~= items@.subrange(0, i as int));
                    assert(pre.last() == items@[i as int]);
                }
                match &items[i] {
                    Json::Str(s) => {
                        out.push(s.clone());
                    },
                    _ => {
                        proof {
                            let pre = items@.subrange(0, i + 1);
                            assert(!(pre.last() is Str));
                            assert(strings_of(pre) is None);
                            lemma_strings_prefix(items@, i + 1);
                        }
                        return Err(DecodeError::WrongType(key));
                    },
                }
                i = i + 1;
            }
            assert(items@.subrange(0, items@.len() as int) =~= items@);
            Ok(out)
        },
        Some(_) => Err(DecodeError::WrongType(key)),
    }
}

/// Where a prefix of the items is not all strings, neither are the items.
proof fn lemma_strings_prefix(items: Seq<Json>, n: int)
    requires
        0 <= n <= items.len(),
        strings_of(items.subrange(0, n)) is None,
    ensures
        strings_of(items) is None,
    decreases items.len() - n,
{
    if n < items.len() {
        let pre = items.subrange(0, n + 1);
        assert(pre.drop_last() =~= items.subrange(0, n));
        lemma_strings_prefix(items, n + 1);
    } else {
        assert(items.subrange(0, n) =~= items);
    }
}

/// A type that can be read from a JSON document.
pub trait FromJson: Sized {
    /// The first reason why `doc` does not decode, if any.
    spec fn decode_error(doc: Json) -> Option<DecodeError>;

    /// Whether `self` holds what `doc` holds.
    spec fn decoded_from(&self, doc: Json) -> bool;

    /// Reads a value from a document.
    fn from_json(doc: &Json) -> (r: Result<Self, DecodeError>)
        ensures
            match r {
                Ok(v) => Self::decode_error(*doc) is None && v.decoded_from(*doc),
                Err(e) => Self::decode_error(*doc) == Some(e),
            },
    ;
}

/// The items of the `results` member of an envelope.
pub open spec fn result_items(doc: Json) -> Seq<Json> {
    match doc {
        Json::Object(f) => match lookup(f@, "results"@) {
            Some(Json::Array(items)) => items@,
            _ => Seq::empty(),
        },
        _ => Seq::empty(),
    }
}

/// The first item that does not decode, if any.
pub open spec fn items_error<T: FromJson>(items: Seq<Json>) -> Option<DecodeError>
    decreases items.len(),
{
    if items.len() == 0 {
        None
    } else {
        first(items_error::<T>(items.drop_last()), T::decode_error(items.last()))
    }
}

/// Why the `results` member of an envelope does not decode, if it does not.
pub open spec fn results_error<T: FromJson>(f: Seq<(String, Json)>) -> Option<DecodeError> {
    match lookup(f, "results"@) {
        None => Some(DecodeError::MissingField("results")),
        Some(Json::Array(items)) => items_error::<T>(items@),
        Some(_) => Some(DecodeError::WrongType("results")),
    }
}

/// The first reason why `doc` does not decode as an envelope of `T`, if any:
/// the results are read first, then the count, the type and the version.
pub open spec fn envelope_error<T: FromJson>(doc: Json) -> Option<DecodeError> {
    match doc {
        Json::Object(f) => first(
            results_error::<T>(f@),
            first(
                fail(u64_field(f@, "resultcount")),
                first(fail(string_field(f@, "type")), fail(u64_field(f@, "version"))),
            ),
        ),
        _ => Some(DecodeError::NotAnObject),
    }
}

/// Where a prefix of the items holds an item that does not decode, the
/// first such item is the first of all the items.
proof fn lemma_items_error_prefix<T: FromJson>(items: Seq<Json>, n: int)
    requires
        0 <= n <= items.len(),
        items_error::<T>(items.subrange(0, n)) is Some,
    ensures
        items_error::<T>(items) == items_error::<T>(items.subrange(0, n)),
    decreases items.len() - n,
{
    if n < items.len() {
        let pre = items.subrange(0, n + 1);
        assert(pre.drop_last() =~= items.subrange(0, n));
        lemma_items_error_prefix::<T>(items, n + 1);
    } else {
        assert(items.subrange(0, n) =~= items);
    }
}

/// Reads an envelope and each of its results.
pub fn decode_envelope<T: FromJson>(doc: &Json) -> (r: Result<Search<T>, DecodeError>)
    ensures
        match r {
            Ok(s) => envelope_error::<T>(*doc) is None && s.decoded_from(*doc),
            Err(e) => envelope_error::<T>(*doc) == Some(e),
        },
{
    let f = match doc {
        Json::Object(f) => f,
        _ => {
            return Err(DecodeError::NotAnObject);
        },
    };
    let items = match get_field(f, "results") {
        None => {
            return Err(DecodeError::MissingField("results"));
        },
        Some(Json::Array(items)) => items,
        Some(_) => {
            return Err(DecodeError::WrongType("results"));
        },
    };
    let mut results: Vec<T> = Vec::new();
    let mut i: usize = 0;
    while i < items.len()
        invariant
            i <= items@.len(),
            *doc == Json::Object(*f),
            lookup(f@, "results"@) == Some(Json::Array(*items)),
            items_error::<T>(items@.subrange(0, i as int)) is None,
            results@.len() == i,
            forall|j: int| 0 <= j < i ==> #[trigger] results@[j].decoded_from(items@[j]),
        decreases items.len() - i,
    {
        proof {
            let pre = items@.subrange(0, i + 1);
            assert(pre.drop_last() =~= items@.subrange(0, i as int));
            assert(pre.last() == items@[i as int]);
        }
        match T::from_json(&items[i]) {
            Ok(v) => {
                results.push(v);
            },
            Err(e) => {
                proof {
                    lemma_items_error_prefix::<T>(items@, i + 1);
                }
                return Err(e);
            },
        }
        i = i + 1;
    }
    assert(items@.subrange(0, items@.len() as int) =~= items@);
    let result_count = read_u64(f, "resultcount")?;
    let type_ = read_string(f, "type")?;
    let version = read_u64(f, "version")?;
    Ok(Search { results, result_count, type_, version })
}

} // verus!
