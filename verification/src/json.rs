//! JSON values, in which the database steps of a watch migration are handed
//! over once they are put in words.

use vstd::prelude::*;

verus! {

/// A JSON value of `serde_json`. What is inside one is not looked at here:
/// values are taken, put together and handed on.
#[verifier::external_type_specification]
#[verifier::external_body]
pub struct ExValue(serde_json::Value);

/// The JSON array that holds the given values in their order.
pub uninterp spec fn array_of(items: Seq<serde_json::Value>) -> serde_json::Value;

/// The JSON array of `items`, made by `serde_json::Value::Array`.
///
/// Not proved: that the result is the array variant of `serde_json::Value`
/// holding exactly `items`, in their order. The variant wraps the vector as
/// it is, so the same items always give the same array; that is all the
/// contract claims, under the name [`array_of`].
#[verifier::external_body]
pub(crate) fn json_array(items: Vec<serde_json::Value>) -> (r: serde_json::Value)
    ensures
        r == array_of(items@),
{
    serde_json::Value::Array(items)
}

} // verus!
