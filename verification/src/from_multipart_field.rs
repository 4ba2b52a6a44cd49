//! The field conversion capability: one value out of one field.
use crate::error::Error;
use crate::multipart_form::{MultipartField, MultipartForm};
use crate::text::FromText;
use vstd::prelude::*;

verus! {

/// Allows to create a value from one field of a form.
///
/// A container type reads the whole form, not only the field it is handed.
///
/// The method has no contract here, so that any type can implement it. What
/// an implementation returns on given arguments is written
/// `call_ensures(T::from_field, (field, form), r)`, and each implementation
/// of this crate says in its own `ensures` what that is.
pub trait FromMultipartField: Sized {
    /// Converts the given form field.
    ///
    /// - `field` the field to convert
    /// - `form` the form that is being converted
    fn from_field(field: &MultipartField, form: &MultipartForm) -> Result<Self, Error>;
}

/// `r` is what reading `text` as a `T` returns.
pub open spec fn reads_text<T: FromText>(text: Seq<char>, r: Result<T, Error>) -> bool {
    exists|s: &str| s@ == text && call_ensures(T::from_text, (s,), r)
}

/// `r` is what converting the field at `position` of `form` to a `T` returns.
pub open spec fn converts_field<T: FromMultipartField>(
    form: &MultipartForm,
    position: int,
    r: Result<T, Error>,
) -> bool {
    call_ensures(T::from_field, (&form.fields_spec()[position], form), r)
}

/// Converts a field to a type with a textual form: reads the value out of
/// the field's content, decoded as text.
pub fn field_from_text<T: FromText>(field: &MultipartField) -> (r: Result<T, Error>)
    ensures
        reads_text(field@.text(), r),
{
    let text = field.text();
    T::from_text(text.as_str())
}

/// The value of a success, and nothing for a failure.
pub open spec fn ok_of<T>(r: Result<T, Error>) -> Option<T> {
    match r {
        Ok(value) => Some(value),
        Err(_) => None,
    }
}

/// `value` is what the conversion of `field` to a `T` returns, with a
/// failure turned into no value.
pub open spec fn converts_leniently<T: FromMultipartField>(
    field: &MultipartField,
    form: &MultipartForm,
    value: Option<T>,
) -> bool {
    exists|inner: Result<T, Error>| #[trigger]
        call_ensures(T::from_field, (field, form), inner) && value == ok_of(inner)
}

/// An optional value never fails to convert: where the inner conversion
/// fails, there is no value.
impl<T: FromMultipartField> FromMultipartField for Option<T> {
    fn from_field(field: &MultipartField, form: &MultipartForm) -> (r: Result<Option<T>, Error>)
        ensures
            r matches Ok(value) && converts_leniently(field, form, value),
    {
        let inner = T::from_field(field, form);
        let value = match inner {
            Ok(x) => Some(x),
            Err(_) => None,
        };
        Ok(value)
    }
}

/// The values of the successes among `outcomes`, in order.
pub open spec fn successes<T>(outcomes: Seq<Result<T, Error>>) -> Seq<T>
    decreases outcomes.len(),
{
    if outcomes.len() == 0 {
        Seq::empty()
    } else {
        match outcomes.last() {
            Ok(value) => successes(outcomes.drop_last()).push(value),
            Err(_) => successes(outcomes.drop_last()),
        }
    }
}

/// `outcomes` holds, for each field of `form` in order, what converting it to
/// a `T` returns.
pub open spec fn scans<T: FromMultipartField>(form: &MultipartForm, outcomes: Seq<Result<T, Error>>) -> bool {
    &&& outcomes.len() == form@.len()
    &&& forall|i: int| 0 <= i < outcomes.len() ==> converts_field(form, i, #[trigger] outcomes[i])
}

/// `values` holds every field of `form` that converts to a `T`, converted, in
/// the order of the form.
pub open spec fn collects<T: FromMultipartField>(form: &MultipartForm, values: Seq<T>) -> bool {
    exists|outcomes: Seq<Result<T, Error>>| scans(form, outcomes) && values == successes(outcomes)
}

/// Converts every field of the form and keeps the successes, in order. A
/// field that does not convert is passed over in silence.
pub fn collect_fields<T: FromMultipartField>(form: &MultipartForm) -> (values: Vec<T>)
    ensures
        collects(form, values@),
{
    let mut values: Vec<T> = Vec::new();
    let ghost mut outcomes: Seq<Result<T, Error>> = Seq::empty();
    let mut i: usize = 0;
    while i < form.len()
        invariant
            i <= form@.len(),
            outcomes.len() == i,
            forall|j: int| 0 <= j < i ==> converts_field(form, j, #[trigger] outcomes[j]),
            values@ == successes(outcomes),
        decreases form@.len() - i,
    {
        let field = form.get(i).unwrap();
        let outcome = T::from_field(field, form);
        proof {
            let longer = outcomes.push(outcome);
            assert(longer.drop_last() == outcomes);
            outcomes = longer;
        }
        match outcome {
            Ok(value) => {
                values.push(value);
            },
            Err(_) => {},
        }
        i += 1;
    }
    values
}

/// A list holds every field of the form that converts to its element type.
impl<T: FromMultipartField> FromMultipartField for Vec<T> {
    fn from_field(_field: &MultipartField, form: &MultipartForm) -> (r: Result<Vec<T>, Error>)
        ensures
            r matches Ok(values) && collects(form, values@),
    {
        Ok(collect_fields(form))
    }
}

} // verus!
