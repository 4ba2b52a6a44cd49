//! Both conversion capabilities for the types with a textual form: a field
//! converts by its content, read as text; a form converts by the field that
//! the context names.
use crate::error::Error;
use crate::from_multipart::{converts_named, from_named_field, FormContext, FromMultipart};
use crate::from_multipart_field::{field_from_text, reads_text, FromMultipartField};
use crate::multipart_form::{MultipartField, MultipartForm};
use vstd::prelude::*;

verus! {

impl FromMultipartField for bool {
    fn from_field(field: &MultipartField, _form: &MultipartForm) -> (r: Result<bool, Error>)
        ensures
            reads_text(field@.text(), r),
    {
        field_from_text(field)
    }
}

impl FromMultipart for bool {
    fn from_multipart(multipart: &MultipartForm, ctx: FormContext<'_>) -> (r: Result<bool, Error>)
        ensures
            converts_named(multipart, ctx.name(), r),
    {
        from_named_field(multipart, ctx)
    }
}

impl FromMultipartField for char {
    fn from_field(field: &MultipartField, _form: &MultipartForm) -> (r: Result<char, Error>)
        ensures
            reads_text(field@.text(), r),
    {
        field_from_text(field)
    }
}

impl FromMultipart for char {
    fn from_multipart(multipart: &MultipartForm, ctx: FormContext<'_>) -> (r: Result<char, Error>)
        ensures
            converts_named(multipart, ctx.name(), r),
    {
        from_named_field(multipart, ctx)
    }
}

impl FromMultipartField for String {
    fn from_field(field: &MultipartField, _form: &MultipartForm) -> (r: Result<String, Error>)
        ensures
            reads_text(field@.text(), r),
    {
        field_from_text(field)
    }
}

impl FromMultipart for String {
    fn from_multipart(multipart: &MultipartForm, ctx: FormContext<'_>) -> (r: Result<String, Error>)
        ensures
            converts_named(multipart, ctx.name(), r),
    {
        from_named_field(multipart, ctx)
    }
}

impl FromMultipartField for u8 {
    fn from_field(field: &MultipartField, _form: &MultipartForm) -> (r: Result<u8, Error>)
        ensures
            reads_text(field@.text(), r),
    {
        field_from_text(field)
    }
}

impl FromMultipart for u8 {
    fn from_multipart(multipart: &MultipartForm, ctx: FormContext<'_>) -> (r: Result<u8, Error>)
        ensures
            converts_named(multipart, ctx.name(), r),
    {
        from_named_field(multipart, ctx)
    }
}

impl FromMultipartField for u16 {
    fn from_field(field: &MultipartField, _form: &MultipartForm) -> (r: Result<u16, Error>)
        ensures
            reads_text(field@.text(), r),
    {
        field_from_text(field)
    }
}

impl FromMultipart for u16 {
    fn from_multipart(multipart: &MultipartForm, ctx: FormContext<'_>) -> (r: Result<u16, Error>)
        ensures
            converts_named(multipart, ctx.name(), r),
    {
        from_named_field(multipart, ctx)
    }
}

impl FromMultipartField for u32 {
    fn from_field(field: &MultipartField, _form: &MultipartForm) -> (r: Result<u32, Error>)
        ensures
            reads_text(field@.text(), r),
    {
        field_from_text(field)
    }
}

impl FromMultipart for u32 {
    fn from_multipart(multipart: &MultipartForm, ctx: FormContext<'_>) -> (r: Result<u32, Error>)
        ensures
            converts_named(multipart, ctx.name(), r),
    {
        from_named_field(multipart, ctx)
    }
}

impl FromMultipartField for u64 {
    fn from_field(field: &MultipartField, _form: &MultipartForm) -> (r: Result<u64, Error>)
        ensures
            reads_text(field@.text(), r),
    {
        field_from_text(field)
    }
}

impl FromMultipart for u64 {
    fn from_multipart(multipart: &MultipartForm, ctx: FormContext<'_>) -> (r: Result<u64, Error>)
        ensures
            converts_named(multipart, ctx.name(), r),
    {
        from_named_field(multipart, ctx)
    }
}

impl FromMultipartField for u128 {
    fn from_field(field: &MultipartField, _form: &MultipartForm) -> (r: Result<u128, Error>)
        ensures
            reads_text(field@.text(), r),
    {
        field_from_text(field)
    }
}

impl FromMultipart for u128 {
    fn from_multipart(multipart: &MultipartForm, ctx: FormContext<'_>) -> (r: Result<u128, Error>)
        ensures
            converts_named(multipart, ctx.name(), r),
    {
        from_named_field(multipart, ctx)
    }
}

impl FromMultipartField for usize {
    fn from_field(field: &MultipartField, _form: &MultipartForm) -> (r: Result<usize, Error>)
        ensures
            reads_text(field@.text(), r),
    {
        field_from_text(field)
    }
}

impl FromMultipart for usize {
    fn from_multipart(multipart: &MultipartForm, ctx: FormContext<'_>) -> (r: Result<usize, Error>)
        ensures
            converts_named(multipart, ctx.name(), r),
    {
        from_named_field(multipart, ctx)
    }
}

impl FromMultipartField for i8 {
    fn from_field(field: &MultipartField, _form: &MultipartForm) -> (r: Result<i8, Error>)
        ensures
            reads_text(field@.text(), r),
    {
        field_from_text(field)
    }
}

impl FromMultipart for i8 {
    fn from_multipart(multipart: &MultipartForm, ctx: FormContext<'_>) -> (r: Result<i8, Error>)
        ensures
            converts_named(multipart, ctx.name(), r),
    {
        from_named_field(multipart, ctx)
    }
}

impl FromMultipartField for i16 {
    fn from_field(field: &MultipartField, _form: &MultipartForm) -> (r: Result<i16, Error>)
        ensures
            reads_text(field@.text(), r),
    {
        field_from_text(field)
    }
}

impl FromMultipart for i16 {
    fn from_multipart(multipart: &MultipartForm, ctx: FormContext<'_>) -> (r: Result<i16, Error>)
        ensures
            converts_named(multipart, ctx.name(), r),
    {
        from_named_field(multipart, ctx)
    }
}

impl FromMultipartField for i32 {
    fn from_field(field: &MultipartField, _form: &MultipartForm) -> (r: Result<i32, Error>)
        ensures
            reads_text(field@.text(), r),
    {
        field_from_text(field)
    }
}

impl FromMultipart for i32 {
    fn from_multipart(multipart: &MultipartForm, ctx: FormContext<'_>) -> (r: Result<i32, Error>)
        ensures
            converts_named(multipart, ctx.name(), r),
    {
        from_named_field(multipart, ctx)
    }
}

impl FromMultipartField for i64 {
    fn from_field(field: &MultipartField, _form: &MultipartForm) -> (r: Result<i64, Error>)
        ensures
            reads_text(field@.text(), r),
    {
        field_from_text(field)
    }
}

impl FromMultipart for i64 {
    fn from_multipart(multipart: &MultipartForm, ctx: FormContext<'_>) -> (r: Result<i64, Error>)
        ensures
            converts_named(multipart, ctx.name(), r),
    {
        from_named_field(multipart, ctx)
    }
}

impl FromMultipartField for i128 {
    fn from_field(field: &MultipartField, _form: &MultipartForm) -> (r: Result<i128, Error>)
        ensures
            reads_text(field@.text(), r),
    {
        field_from_text(field)
    }
}

impl FromMultipart for i128 {
    fn from_multipart(multipart: &MultipartForm, ctx: FormContext<'_>) -> (r: Result<i128, Error>)
        ensures
            converts_named(multipart, ctx.name(), r),
    {
        from_named_field(multipart, ctx)
    }
}

impl FromMultipartField for isize {
    fn from_field(field: &MultipartField, _form: &MultipartForm) -> (r: Result<isize, Error>)
        ensures
            reads_text(field@.text(), r),
    {
        field_from_text(field)
    }
}

impl FromMultipart for isize {
    fn from_multipart(multipart: &MultipartForm, ctx: FormContext<'_>) -> (r: Result<isize, Error>)
        ensures
            converts_named(multipart, ctx.name(), r),
    {
        from_named_field(multipart, ctx)
    }
}

} // verus!
