//! The assembly of a record from a form, member by member, as its
//! derivation plans it.
use crate::derive::{Derivation, MemberPlan};
use crate::error::Error;
use crate::from_multipart::FormContext;
use crate::multipart_form::MultipartForm;
use vstd::prelude::*;

verus! {

/// `r` is what the conversion of the member at `index` returns: the
/// function that the member names with `with`, called with that path, the
/// whole form and a context that names the member's match name; or, where
/// the member names none, the conversion of the member's position, called
/// with the form and the same context.
pub open spec fn member_outcome<V, W, C>(
    derivation: &Derivation,
    form: &MultipartForm,
    with: W,
    convert: C,
    index: int,
    r: Result<V, Error>,
) -> bool where
    W: Fn(&String, &MultipartForm, FormContext<'_>) -> Result<V, Error>,
    C: Fn(usize, &MultipartForm, FormContext<'_>) -> Result<V, Error>,
 {
    let plan = derivation.members@[index];
    exists|ctx: FormContext<'_>| #[trigger]
        ctx.name() == Some(plan.match_name@) && match plan.with {
            Some(path) => call_ensures(with, (&path, form, ctx), r),
            None => call_ensures(convert, (index as usize, form, ctx), r),
        }
}

/// The conversion of the member at `index` may be called: the function it
/// names, or the conversion of its position, accepts the form with every
/// context that names the member's match name.
pub open spec fn member_callable<V, W, C>(
    derivation: &Derivation,
    form: &MultipartForm,
    with: W,
    convert: C,
    index: int,
) -> bool where
    W: Fn(&String, &MultipartForm, FormContext<'_>) -> Result<V, Error>,
    C: Fn(usize, &MultipartForm, FormContext<'_>) -> Result<V, Error>,
 {
    let plan = derivation.members@[index];
    forall|ctx: FormContext<'_>| #[trigger]
        ctx.name() == Some(plan.match_name@) ==> match plan.with {
            Some(path) => call_requires(with, (&path, form, ctx)),
            None => call_requires(convert, (index as usize, form, ctx)),
        }
}

/// `values` holds the values of the first members, each at its member's
/// position.
pub open spec fn converted<V, W, C>(
    derivation: &Derivation,
    form: &MultipartForm,
    with: W,
    convert: C,
    values: Seq<V>,
) -> bool where
    W: Fn(&String, &MultipartForm, FormContext<'_>) -> Result<V, Error>,
    C: Fn(usize, &MultipartForm, FormContext<'_>) -> Result<V, Error>,
 {
    &&& values.len() <= derivation.members@.len()
    &&& forall|i: int|
        0 <= i < values.len() ==> member_outcome(derivation, form, with, convert, i, Ok(#[trigger] values[i]))
}

/// `r` is what the assembly returns: the value of every member, at the
/// member's own position, where every member converts; else the failure of
/// the first member that does not, unchanged.
pub open spec fn assembles<V, W, C>(
    derivation: &Derivation,
    form: &MultipartForm,
    with: W,
    convert: C,
    r: Result<Vec<V>, Error>,
) -> bool where
    W: Fn(&String, &MultipartForm, FormContext<'_>) -> Result<V, Error>,
    C: Fn(usize, &MultipartForm, FormContext<'_>) -> Result<V, Error>,
 {
    match r {
        Ok(values) => values@.len() == derivation.members@.len() && converted(
            derivation,
            form,
            with,
            convert,
            values@,
        ),
        Err(e) => exists|earlier: Seq<V>| #[trigger]
            converted(derivation, form, with, convert, earlier) && earlier.len()
                < derivation.members@.len() && member_outcome(
                derivation,
                form,
                with,
                convert,
                earlier.len() as int,
                Err::<V, Error>(e),
            ),
    }
}

/// Converts the form to the values of a record's members, in declaration
/// order, and stops at the first member that fails.
///
/// `with` stands for the functions that members name: it is called with the
/// path that the member gives. `convert` stands for the record conversion
/// capabilities of the members' types: it is called with the member's
/// position. Both get the whole form and a context that names the field
/// that the member is matched against, and have to accept these arguments.
pub fn assemble<V, W, C>(derivation: &Derivation, form: &MultipartForm, with: W, convert: C) -> (r: Result<
    Vec<V>,
    Error,
>) where
    W: Fn(&String, &MultipartForm, FormContext<'_>) -> Result<V, Error>,
    C: Fn(usize, &MultipartForm, FormContext<'_>) -> Result<V, Error>,

    requires
        forall|i: int|
            0 <= i < derivation.members@.len() ==> #[trigger] member_callable(derivation, form, with, convert, i),
    ensures
        assembles(derivation, form, with, convert, r),
{
    let mut values: Vec<V> = Vec::new();
    let mut i: usize = 0;
    while i < derivation.members.len()
        invariant
            i <= derivation.members@.len(),
            values@.len() == i,
            forall|j: int|
                0 <= j < derivation.members@.len() ==> #[trigger] member_callable(
                    derivation,
                    form,
                    with,
                    convert,
                    j,
                ),
            forall|j: int|
                0 <= j < i ==> member_outcome(derivation, form, with, convert, j, Ok(#[trigger] values@[j])),
        decreases derivation.members@.len() - i,
    {
        let plan = &derivation.members[i];
        let ctx = FormContext { field_name: Some(plan.match_name.as_str()) };
        assert(member_callable(derivation, form, with, convert, i as int));
        let outcome = match &plan.with {
            Some(path) => with(path, form, ctx),
            None => convert(i, form, ctx),
        };
        assert(member_outcome(derivation, form, with, convert, i as int, outcome)) by {
            assert(ctx.name() == Some(plan.match_name@));
        }
        match outcome {
            Ok(value) => {
                values.push(value);
            },
            Err(e) => {
                assert(converted(derivation, form, with, convert, values@));
                return Err(e);
            },
        }
        i += 1;
    }
    Ok(values)
}

} // verus!
