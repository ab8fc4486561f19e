//! JSON documents: the type that payloads carry, and the three questions that
//! the library asks of one.

use serde_json::Value;
use vstd::prelude::*;

verus! {

/// `serde_json::Value`, an arbitrary JSON document. The library carries
/// documents between the caller and the wire and looks inside one only
/// through the functions of this module.
#[verifier::external_type_specification]
#[verifier::external_body]
pub struct ExValue(serde_json::Value);

/// The document that a JSON text stands for, as `serde_json::from_slice`
/// reads it; `None` where the bytes are no JSON text.
pub uninterp spec fn parsed_document(text: Seq<u8>) -> Option<Value>;

/// The member of this name in a document that is an object, as `Value::get`
/// finds it; `None` where the document is no object or has no such member.
pub uninterp spec fn member_of(document: Value, name: Seq<char>) -> Option<Value>;

/// The text of a document that is a string, as `Value::as_str` gives it;
/// `None` where the document is anything else.
pub uninterp spec fn text_of(document: Value) -> Option<Seq<char>>;

/// Reads a JSON text with `serde_json::from_slice`. The contract claims that
/// the answer depends on the bytes alone, and names it; a text that
/// `from_slice` refuses gives `None`.
#[verifier::external_body]
pub(crate) fn parse(text: &[u8]) -> (r: Option<Value>)
    ensures
        r == parsed_document(text@),
{
    serde_json::from_slice::<Value>(text).ok()
}

/// Looks a member up with `Value::get`. The contract claims that the answer
/// is the member that `member_of` names, and `None` exactly where there is
/// none.
#[verifier::external_body]
pub(crate) fn member<'a>(document: &'a Value, name: &str) -> (r: Option<&'a Value>)
    ensures
        r matches Some(found) ==> member_of(*document, name@) == Some(*found),
        r is None ==> member_of(*document, name@) is None,
{
    document.get(name)
}

/// Reads a string with `Value::as_str`. The contract claims that the answer is
/// the text that `text_of` names, and `None` exactly where the document is no
/// string.
#[verifier::external_body]
pub(crate) fn text<'a>(document: &'a Value) -> (r: Option<&'a str>)
    ensures
        r matches Some(found) ==> text_of(*document) == Some(found@),
        r is None ==> text_of(*document) is None,
{
    document.as_str()
}

} // verus!
