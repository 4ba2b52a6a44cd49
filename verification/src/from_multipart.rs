//! The record conversion capability: one value out of the whole form.
use crate::error::Error;
use crate::from_multipart_field::{collect_fields, collects, converts_field, ok_of, FromMultipartField};
use crate::multipart_form::{opt_str_text, position_of, MultipartForm};
use vstd::prelude::*;

verus! {

/// Additional information for converting a multipart form.
#[derive(Debug)]
pub struct FormContext<'a> {
    /// The name of the field being converted, if any.
    pub field_name: Option<&'a str>,
}

impl<'a> FormContext<'a> {
    /// The name that the context carries, as text.
    pub open spec fn name(self) -> Option<Seq<char>> {
        opt_str_text(self.field_name)
    }
}

impl<'a> Default for FormContext<'a> {
    /// The context that names no field.
    fn default() -> (ctx: Self)
        ensures
            ctx.field_name is None,
    {
        FormContext { field_name: None }
    }
}

/// Allows to create a value from a whole multipart form.
///
/// The context names the field, or the record member, that the conversion
/// is responsible for; without a name the value is made of the whole form.
/// The method has no contract here, so that any type can implement it; each
/// implementation of this crate says in its own `ensures` what it returns.
pub trait FromMultipart: Sized {
    /// Constructs this type from the given multipart form.
    fn from_multipart(multipart: &MultipartForm, ctx: FormContext<'_>) -> Result<Self, Error>;
}

/// `r` is what converting `form` to a `T` under the context returns.
pub open spec fn converts_form<T: FromMultipart>(
    form: &MultipartForm,
    ctx: FormContext<'_>,
    r: Result<T, Error>,
) -> bool {
    call_ensures(T::from_multipart, (form, ctx), r)
}

/// The failure to find a field of the given name.
pub open spec fn is_not_found(e: Error, name: Seq<char>) -> bool {
    e matches Error::FieldNotFound { name: n } && n@ == name
}

/// `r` is what converting the field that `name` names returns: without a
/// name, `MissingContext`; without a field of that name, `FieldNotFound`;
/// else whatever the conversion of the first such field returns.
pub open spec fn converts_named<T: FromMultipartField>(
    form: &MultipartForm,
    name: Option<Seq<char>>,
    r: Result<T, Error>,
) -> bool {
    match name {
        None => r matches Err(Error::MissingContext),
        Some(wanted) => match position_of(form@, wanted) {
            None => r matches Err(e) && is_not_found(e, wanted),
            Some(position) => converts_field(form, position, r),
        },
    }
}

/// Converts the field that the context names: the first field of the form
/// that bears the name.
pub fn from_named_field<T: FromMultipartField>(multipart: &MultipartForm, ctx: FormContext<'_>) -> (r: Result<
    T,
    Error,
>)
    ensures
        converts_named(multipart, ctx.name(), r),
{
    let field_name = match ctx.field_name {
        Some(field_name) => field_name,
        None => {
            return Err(Error::MissingContext);
        },
    };
    match multipart.get_by_name(field_name) {
        Some(field) => T::from_field(field, multipart),
        None => Err(Error::FieldNotFound { name: field_name.to_owned() }),
    }
}

/// `value` is what the conversion of `form` to a `T` returns, with a failure
/// turned into no value.
pub open spec fn converts_form_leniently<T: FromMultipart>(
    form: &MultipartForm,
    ctx: FormContext<'_>,
    value: Option<T>,
) -> bool {
    exists|inner: Result<T, Error>| #[trigger] converts_form(form, ctx, inner) && value == ok_of(inner)
}

/// An optional member never fails: where its conversion fails, be it for
/// want of a field or for a content that does not parse, it has no value.
impl<T: FromMultipart> FromMultipart for Option<T> {
    fn from_multipart(multipart: &MultipartForm, ctx: FormContext<'_>) -> (r: Result<Option<T>, Error>)
        ensures
            r matches Ok(value) && converts_form_leniently(multipart, ctx, value),
    {
        let inner = T::from_multipart(multipart, ctx);
        let ghost witness = inner;
        let value = match inner {
            Ok(x) => Some(x),
            Err(_) => None,
        };
        assert(converts_form(multipart, ctx, witness) && value == ok_of(witness));
        Ok(value)
    }
}

/// A list member holds every field of the form that converts to its element
/// type, whatever the field's name.
impl<T: FromMultipartField> FromMultipart for Vec<T> {
    fn from_multipart(multipart: &MultipartForm, _ctx: FormContext<'_>) -> (r: Result<Vec<T>, Error>)
        ensures
            r matches Ok(values) && collects(multipart, values@),
    {
        Ok(collect_fields(multipart))
    }
}

} // verus!
