//! A file that was sent in a form.
use crate::error::Error;
use crate::from_multipart::{converts_named, from_named_field, FormContext, FromMultipart};
use crate::from_multipart_field::FromMultipartField;
use crate::multipart_form::{clone_headers, copy_bytes, FieldView, MultipartField, MultipartForm};
use http::HeaderMap;
use vstd::prelude::*;

verus! {

/// The content type of a file that declares none.
pub open spec fn default_content_type() -> Seq<char> {
    "application/octet-stream"@
}

/// What a file holds, as mathematical values.
pub struct FileView {
    pub name: Seq<char>,
    pub file_name: Seq<char>,
    pub content_type: Seq<char>,
    pub headers: HeaderMap,
    pub bytes: Seq<u8>,
}

/// The file that a field is, if it is one: a field with a name and a file
/// name. Its content type is the field's, or the default where the field
/// has none.
pub open spec fn file_of(field: FieldView) -> Option<FileView> {
    match (field.name, field.file_name) {
        (Some(name), Some(file_name)) => Some(
            FileView {
                name,
                file_name,
                content_type: match field.content_type {
                    Some(content_type) => content_type,
                    None => default_content_type(),
                },
                headers: field.headers,
                bytes: field.bytes,
            },
        ),
        _ => None,
    }
}

/// What the conversion of a field to a file returns: the file that the field
/// is; `MissingName` for a field without a name; `MissingFileName` for a
/// named field without a file name.
pub open spec fn file_outcome(field: FieldView, r: Result<FormFile, Error>) -> bool {
    match r {
        Ok(file) => file_of(field) == Some(file@),
        Err(e) => if field.name is None {
            e is MissingName
        } else {
            field.file_name is None && e is MissingFileName
        },
    }
}

/// Represents a file sent in a form.
#[derive(Debug)]
pub struct FormFile {
    bytes: Vec<u8>,
    headers: HeaderMap,
    content_type: String,
    name: String,
    file_name: String,
}

impl View for FormFile {
    type V = FileView;

    closed spec fn view(&self) -> FileView {
        FileView {
            name: self.name@,
            file_name: self.file_name@,
            content_type: self.content_type@,
            headers: self.headers,
            bytes: self.bytes@,
        }
    }
}

impl Clone for FormFile {
    fn clone(&self) -> (copy: Self)
        ensures
            copy@ == self@,
    {
        FormFile {
            bytes: copy_bytes(&self.bytes),
            headers: clone_headers(&self.headers),
            content_type: self.content_type.clone(),
            name: self.name.clone(),
            file_name: self.file_name.clone(),
        }
    }
}

impl FormFile {
    /// Returns the bytes of this file.
    pub fn bytes(&self) -> (r: &Vec<u8>)
        ensures
            r@ == self@.bytes,
    {
        &self.bytes
    }

    /// Return the name of the form field
    pub fn name(&self) -> (r: &str)
        ensures
            r@ == self@.name,
    {
        self.name.as_str()
    }

    /// Returns the file name.
    pub fn file_name(&self) -> (r: &str)
        ensures
            r@ == self@.file_name,
    {
        self.file_name.as_str()
    }

    /// Returns the headers of the file.
    pub fn headers(&self) -> (r: &HeaderMap)
        ensures
            *r == self@.headers,
    {
        &self.headers
    }

    /// Returns the content type of this file, as the text of a media type.
    pub fn content_type(&self) -> (r: &str)
        ensures
            r@ == self@.content_type,
    {
        self.content_type.as_str()
    }
}

impl FromMultipartField for FormFile {
    fn from_field(field: &MultipartField, _form: &MultipartForm) -> (r: Result<FormFile, Error>)
        ensures
            file_outcome(field@, r),
    {
        let name = match field.name() {
            Some(name) => name.to_owned(),
            None => {
                return Err(Error::MissingName);
            },
        };
        let file_name = match field.file_name() {
            Some(file_name) => file_name.to_owned(),
            None => {
                return Err(Error::MissingFileName);
            },
        };
        let headers = clone_headers(field.headers());
        let bytes = copy_bytes(field.bytes());
        let content_type = match field.content_type() {
            Some(content_type) => content_type.to_owned(),
            None => "application/octet-stream".to_owned(),
        };
        Ok(FormFile { bytes, headers, name, file_name, content_type })
    }
}

impl FromMultipart for FormFile {
    fn from_multipart(multipart: &MultipartForm, ctx: FormContext<'_>) -> (r: Result<FormFile, Error>)
        ensures
            converts_named(multipart, ctx.name(), r),
    {
        from_named_field(multipart, ctx)
    }
}

} // verus!
