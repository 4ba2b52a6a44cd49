//! Universally unique identifiers as field values.
use crate::error::Error;
use crate::from_multipart::{converts_named, from_named_field, FormContext, FromMultipart};
use crate::from_multipart_field::FromMultipartField;
use crate::multipart_form::{MultipartField, MultipartForm};
use crate::text::{is_parse_error, parsed_or_error};
use uuid::Uuid;
use vstd::prelude::*;

verus! {

/// A universally unique identifier.
#[verifier::external_type_specification]
#[verifier::external_body]
pub struct ExUuid(uuid::Uuid);

/// Whether `uuid::Uuid::parse_str` reads the text as an identifier.
pub uninterp spec fn denotes_uuid(text: Seq<char>) -> bool;

/// `uuid::Uuid::parse_str`: the identifier that the text denotes, if it
/// denotes one.
#[verifier::external_body]
fn parse_uuid(text: &str) -> (value: Option<Uuid>)
    ensures
        value is Some == denotes_uuid(text@),
{
    match Uuid::parse_str(text) {
        Ok(value) => Some(value),
        Err(_) => None,
    }
}

/// `id` is the identifier that `uuid::Uuid::parse_str` reads out of `text`.
pub closed spec fn is_uuid_of(text: Seq<char>, id: Uuid) -> bool {
    exists|s: &str| s@ == text && #[trigger] call_ensures(parse_uuid, (s,), Some(id))
}

/// An identifier is read in any of the forms that the `uuid` crate reads:
/// the value is the one that the crate reads out of the field's text.
impl FromMultipartField for Uuid {
    fn from_field(field: &MultipartField, _form: &MultipartForm) -> (r: Result<Uuid, Error>)
        ensures
            r is Ok <==> denotes_uuid(field@.text()),
            r matches Ok(id) ==> is_uuid_of(field@.text(), id),
            r matches Err(e) ==> is_parse_error(e, field@.text(), "Uuid"@),
    {
        let text = field.text();
        let parsed = parse_uuid(text.as_str());
        parsed_or_error(parsed, text.as_str(), "Uuid")
    }
}

impl FromMultipart for Uuid {
    fn from_multipart(multipart: &MultipartForm, ctx: FormContext<'_>) -> (r: Result<Uuid, Error>)
        ensures
            converts_named(multipart, ctx.name(), r),
    {
        from_named_field(multipart, ctx)
    }
}

} // verus!
