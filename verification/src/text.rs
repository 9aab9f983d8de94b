//! Text: optional strings as values, comparison with a literal, and lower case.

use vstd::prelude::*;

verus! {

/// An optional string as a value.
pub open spec fn text(value: Option<String>) -> Option<Seq<char>> {
    match value {
        Some(value) => Some(value@),
        None => None,
    }
}

/// An optional string as a value, with nothing read as the empty text.
pub open spec fn text_or_empty(value: Option<String>) -> Seq<char> {
    match value {
        Some(value) => value@,
        None => Seq::empty(),
    }
}

/// Whether `value` reads as `wanted`.
pub fn reads(value: &String, wanted: &str) -> (same: bool)
    ensures
        same == (value@ == wanted@),
{
    *value == wanted.to_owned()
}

/// The string, or the empty one.
pub fn or_empty(value: Option<String>) -> (result: String)
    ensures
        result@ == text_or_empty(value),
        value is Some ==> result == value->0,
        value is None ==> result@.len() == 0,
{
    match value {
        Some(value) => value,
        None => String::new(),
    }
}

/// An optional string and its value are there together, and read the same.
pub proof fn law_text(value: Option<String>)
    ensures
        text(value) is Some <==> value is Some,
        value is Some ==> text(value)->0 == value->0@ && text_or_empty(value) == value->0@,
        value is None ==> text_or_empty(value).len() == 0,
{
}

/// The text in lower case, as `str::to_lowercase` gives it.
pub uninterp spec fn lowercase(value: Seq<char>) -> Seq<char>;

/// Calls `str::to_lowercase` of std, which puts a text in lower case by the Unicode rules. What
/// it comes to is not stated, only that it depends on the text alone.
#[verifier::external_body]
pub(crate) fn to_lowercase(value: &str) -> (lower: String)
    ensures
        lower@ == lowercase(value@),
{
    value.to_lowercase()
}

} // verus!
