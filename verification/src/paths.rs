//! Paths as field values.
use crate::error::Error;
use crate::from_multipart::{converts_named, from_named_field, FormContext, FromMultipart};
use crate::from_multipart_field::FromMultipartField;
use crate::multipart_form::{MultipartField, MultipartForm};
use std::path::PathBuf;
use vstd::prelude::*;

verus! {

/// An owned path.
#[verifier::external_type_specification]
#[verifier::external_body]
pub struct ExPathBuf(std::path::PathBuf);

/// `PathBuf::from` on a string: the path that the text spells.
#[verifier::external_body]
fn path_of(text: String) -> (path: PathBuf) {
    PathBuf::from(text)
}

/// `path` is what `PathBuf::from` makes of `text`.
pub closed spec fn is_path_of(text: Seq<char>, path: PathBuf) -> bool {
    exists|s: String| s@ == text && #[trigger] call_ensures(path_of, (s,), path)
}

/// Every text is a path: the path that the text spells.
impl FromMultipartField for PathBuf {
    fn from_field(field: &MultipartField, _form: &MultipartForm) -> (r: Result<PathBuf, Error>)
        ensures
            r matches Ok(path) && is_path_of(field@.text(), path),
    {
        Ok(path_of(field.text()))
    }
}

impl FromMultipart for PathBuf {
    fn from_multipart(multipart: &MultipartForm, ctx: FormContext<'_>) -> (r: Result<PathBuf, Error>)
        ensures
            converts_named(multipart, ctx.name(), r),
    {
        from_named_field(multipart, ctx)
    }
}

} // verus!
