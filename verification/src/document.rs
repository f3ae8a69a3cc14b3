//! Documents: opaque bytes to the store. What is read of a document, for
//! the indexes and for the schemas, is the value of a field of a JSON
//! object.

use vstd::prelude::*;

verus! {

/// The value of a field of a document, as the text in which `serde_json`
/// writes it: nothing for a document that is no JSON object, for a field's
/// name that is no UTF-8, and for a document without the field.
pub uninterp spec fn field_text(doc: Seq<u8>, field: Seq<u8>) -> Option<Seq<char>>;

/// Reads a document with `serde_json::from_slice`, picks the field with
/// `Value::get` and writes the field's value as text with `to_string`. The
/// contract names the result.
#[verifier::external_body]
pub(crate) fn json_field(doc: &[u8], field: &[u8]) -> (r: Option<String>)
    ensures
        r is Some == field_text(doc@, field@) is Some,
        r is Some ==> r->Some_0@ == field_text(doc@, field@)->Some_0,
{
    let name = std::str::from_utf8(field).ok()?;
    let value: serde_json::Value = serde_json::from_slice(doc).ok()?;
    value.get(name).map(|v| v.to_string())
}

} // verus!
