//! A field as a JSON value.
use crate::error::Error;
use crate::from_multipart::{converts_named, from_named_field, FormContext, FromMultipart};
use crate::from_multipart_field::FromMultipartField;
use crate::multipart_form::{MultipartField, MultipartForm};
use serde_json::Value;
use vstd::prelude::*;

verus! {

/// A JSON value.
#[verifier::external_type_specification]
#[verifier::external_body]
pub struct ExJsonValue(serde_json::Value);

/// `serde_json::to_value` on a string slice: the JSON string of the text.
/// The serializer of values answers a string with `Value::String`, and
/// nothing in that path fails. A failure would come out as its message.
#[verifier::external_body]
fn json_string(text: &str) -> (value: Result<Value, String>)
    ensures
        value is Ok,
{
    match serde_json::to_value(text) {
        Ok(value) => Ok(value),
        Err(error) => Err(error.to_string()),
    }
}

/// `value` is what `serde_json::to_value` makes of `text`.
pub closed spec fn is_json_of(text: Seq<char>, value: Value) -> bool {
    exists|s: &str| s@ == text && #[trigger] call_ensures(json_string, (s,), Ok::<Value, String>(value))
}

/// The text of a field as a JSON value: a JSON string, whatever the text.
impl FromMultipartField for Value {
    fn from_field(field: &MultipartField, _form: &MultipartForm) -> (r: Result<Value, Error>)
        ensures
            r matches Ok(value) && is_json_of(field@.text(), value),
    {
        let text = field.text();
        match json_string(text.as_str()) {
            Ok(value) => Ok(value),
            Err(message) => Err(Error::Other(message)),
        }
    }
}

impl FromMultipart for Value {
    fn from_multipart(multipart: &MultipartForm, ctx: FormContext<'_>) -> (r: Result<Value, Error>)
        ensures
            converts_named(multipart, ctx.name(), r),
    {
        from_named_field(multipart, ctx)
    }
}

} // verus!
