//! JSON objects of `serde_json`.

use serde_json::Value;
use vstd::prelude::*;

verus! {

#[verifier::external_type_specification]
#[verifier::external_body]
pub struct ExValue(serde_json::Value);

/// The members of a JSON object by name; a value that is no object has none.
pub uninterp spec fn members(value: Value) -> Map<Seq<char>, Value>;

/// Calls `serde_json::Value::get` with a name: gives the member of an object under that name,
/// and nothing where the object has no such member or the value is no object.
#[verifier::external_body]
pub(crate) fn member<'a>(value: &'a Value, name: &str) -> (found: Option<&'a Value>)
    ensures
        found is Some <==> members(*value).contains_key(name@),
        found is Some ==> *found->0 == members(*value)[name@],
{
    value.get(name)
}

} // verus!
