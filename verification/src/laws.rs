//! What holds of the conversions, whatever the form.
use crate::assemble::{assembles, converted, member_outcome};
use crate::containers::converts_pair;
use crate::derive::{derivation_of, is_field_name, member_directives, Derivation, RecordInput};
use crate::derive::{answers_given, attributes_upto, derives, first_fault, member_fault, plans};
use crate::derive::{is_asked, is_path_answer, rename_is_valid, with_of};
use crate::directive::DirectiveSet;
use crate::error::Error;
use crate::file_collection::collected;
use crate::form_file::{file_of, FileView};
use crate::from_multipart::{converts_form, converts_form_leniently, converts_named, is_not_found};
use crate::from_multipart::{FormContext, FromMultipart};
use crate::from_multipart_field::{collects, converts_field, ok_of, reads_text, scans, successes};
use crate::from_multipart_field::FromMultipartField;
use crate::maps::{converts_map, entries_fail, entries_of, entries_upto, map_of, KeyedStore};
use crate::multipart_form::{lemma_position_from, position_of, FieldView, MultipartForm};
use crate::text::{integer_within, is_parse_error, FromText};
use vstd::prelude::*;

verus! {

/// A derived record reproduces its members: where the conversion of each
/// member can return nothing but one value, the assembly succeeds, and its
/// values are these, each at the position of its member.
pub proof fn law_assembly_reproduces_members<V, W, C>(
    derivation: &Derivation,
    form: &MultipartForm,
    with: W,
    convert: C,
    expected: Seq<V>,
    r: Result<Vec<V>, Error>,
) where
    W: Fn(&String, &MultipartForm, FormContext<'_>) -> Result<V, Error>,
    C: Fn(usize, &MultipartForm, FormContext<'_>) -> Result<V, Error>,

    requires
        assembles(derivation, form, with, convert, r),
        expected.len() == derivation.members@.len(),
        forall|i: int, outcome: Result<V, Error>|
            0 <= i < expected.len() && #[trigger] member_outcome(derivation, form, with, convert, i, outcome)
                ==> outcome == Ok::<V, Error>(expected[i]),
    ensures
        r matches Ok(values) && values@ == expected,
{
    match r {
        Ok(values) => {
            assert forall|i: int| 0 <= i < expected.len() implies values@[i] == expected[i] by {
                assert(member_outcome(derivation, form, with, convert, i, Ok::<V, Error>(values@[i])));
            }
            assert(values@ =~= expected);
        },
        Err(e) => {
            let earlier = choose|earlier: Seq<V>| #[trigger]
                converted(derivation, form, with, convert, earlier) && earlier.len()
                    < derivation.members@.len() && member_outcome(
                    derivation,
                    form,
                    with,
                    convert,
                    earlier.len() as int,
                    Err::<V, Error>(e),
                );
            assert(member_outcome(derivation, form, with, convert, earlier.len() as int, Err::<V, Error>(e)));
        },
    }
}

/// A function that a member names decides alone: the assembly fails with
/// the failure of the first member that fails, and with no other.
pub proof fn law_assembly_passes_failure_on<V, W, C>(
    derivation: &Derivation,
    form: &MultipartForm,
    with: W,
    convert: C,
    e: Error,
) where
    W: Fn(&String, &MultipartForm, FormContext<'_>) -> Result<V, Error>,
    C: Fn(usize, &MultipartForm, FormContext<'_>) -> Result<V, Error>,

    requires
        assembles(derivation, form, with, convert, Err::<Vec<V>, Error>(e)),
    ensures
        exists|failed: int|
            0 <= failed < derivation.members@.len() && #[trigger] member_outcome(
                derivation,
                form,
                with,
                convert,
                failed,
                Err::<V, Error>(e),
            ),
{
    let earlier = choose|earlier: Seq<V>| #[trigger]
        converted(derivation, form, with, convert, earlier) && earlier.len() < derivation.members@.len()
            && member_outcome(derivation, form, with, convert, earlier.len() as int, Err::<V, Error>(e));
    assert(member_outcome(derivation, form, with, convert, earlier.len() as int, Err::<V, Error>(e)));
}

/// A derived record whose members are all of one type, each converted by
/// the field it names, reproduces its fields: where the form has, for every
/// member, a field of the member's match name that converts, the assembly
/// succeeds, and the value at each member's position is what the first
/// field of the member's match name converts to.
pub proof fn law_record_reproduces_fields<T: FromMultipartField, W, C>(
    derivation: &Derivation,
    form: &MultipartForm,
    with: W,
    convert: C,
    r: Result<Vec<T>, Error>,
) where
    W: Fn(&String, &MultipartForm, FormContext<'_>) -> Result<T, Error>,
    C: Fn(usize, &MultipartForm, FormContext<'_>) -> Result<T, Error>,

    requires
        assembles(derivation, form, with, convert, r),
        forall|i: int| 0 <= i < derivation.members@.len() ==> (#[trigger] derivation.members@[i]).with is None,
        forall|i: usize, ctx: FormContext<'_>, outcome: Result<T, Error>| #[trigger]
            call_ensures(convert, (i, form, ctx), outcome) ==> converts_named::<T>(form, ctx.name(), outcome),
        forall|i: int|
            0 <= i < derivation.members@.len() ==> position_of(
                form@,
                (#[trigger] derivation.members@[i]).match_name@,
            ) is Some,
        forall|i: int, outcome: Result<T, Error>|
            0 <= i < derivation.members@.len() && #[trigger] converts_field::<T>(
                form,
                position_of(form@, derivation.members@[i].match_name@)->0,
                outcome,
            ) ==> outcome is Ok,
    ensures
        r matches Ok(values) && values@.len() == derivation.members@.len() && forall|i: int|
            0 <= i < values@.len() ==> converts_field::<T>(
                form,
                position_of(form@, derivation.members@[i].match_name@)->0,
                Ok::<T, Error>(#[trigger] values@[i]),
            ),
{
    match r {
        Ok(values) => {
            assert forall|i: int| 0 <= i < values@.len() implies converts_field::<T>(
                form,
                position_of(form@, derivation.members@[i].match_name@)->0,
                Ok::<T, Error>(#[trigger] values@[i]),
            ) by {
                lemma_member_outcome_is_named::<T, W, C>(
                    derivation,
                    form,
                    with,
                    convert,
                    i,
                    Ok::<T, Error>(values@[i]),
                );
            }
        },
        Err(e) => {
            let earlier = choose|earlier: Seq<T>| #[trigger]
                converted(derivation, form, with, convert, earlier) && earlier.len()
                    < derivation.members@.len() && member_outcome(
                    derivation,
                    form,
                    with,
                    convert,
                    earlier.len() as int,
                    Err::<T, Error>(e),
                );
            let failed = earlier.len() as int;
            assert(derivation.members@[failed].with is None);
            lemma_member_outcome_is_named::<T, W, C>(
                derivation,
                form,
                with,
                convert,
                failed,
                Err::<T, Error>(e),
            );
        },
    }
}

/// The outcome of a member that names no function, under a conversion by
/// the field it names, is the outcome of the first field of its match name.
proof fn lemma_member_outcome_is_named<T: FromMultipartField, W, C>(
    derivation: &Derivation,
    form: &MultipartForm,
    with: W,
    convert: C,
    index: int,
    outcome: Result<T, Error>,
) where
    W: Fn(&String, &MultipartForm, FormContext<'_>) -> Result<T, Error>,
    C: Fn(usize, &MultipartForm, FormContext<'_>) -> Result<T, Error>,

    requires
        0 <= index < derivation.members@.len(),
        derivation.members@[index].with is None,
        member_outcome(derivation, form, with, convert, index, outcome),
        forall|i: usize, ctx: FormContext<'_>, outcome: Result<T, Error>| #[trigger]
            call_ensures(convert, (i, form, ctx), outcome) ==> converts_named::<T>(form, ctx.name(), outcome),
        position_of(form@, derivation.members@[index].match_name@) is Some,
    ensures
        converts_field::<T>(form, position_of(form@, derivation.members@[index].match_name@)->0, outcome),
{
    let plan = derivation.members@[index];
    let ctx = choose|ctx: FormContext<'_>| #[trigger]
        ctx.name() == Some(plan.match_name@) && match plan.with {
            Some(path) => call_ensures(with, (&path, form, ctx), outcome),
            None => call_ensures(convert, (index as usize, form, ctx), outcome),
        };
    assert(call_ensures(convert, (index as usize, form, ctx), outcome));
    assert(converts_named::<T>(form, ctx.name(), outcome));
}

/// A member that is converted by the field it names is converted from the
/// first field that bears the name it is matched against.
pub proof fn law_member_converts_first_field<T: FromMultipartField>(
    form: &MultipartForm,
    name: Seq<char>,
    position: int,
    r: Result<T, Error>,
)
    requires
        converts_named::<T>(form, Some(name), r),
        position_of(form@, name) == Some(position),
    ensures
        0 <= position < form@.len(),
        form@[position].name == Some(name),
        forall|j: int| 0 <= j < position ==> (#[trigger] form@[j]).name != Some(name),
        converts_field::<T>(form, position, r),
{
    lemma_position_from(form@, name, 0);
    form.lemma_view();
}

/// A text member is the content of its field, as text.
pub proof fn law_text_member_is_content(
    form: &MultipartForm,
    ctx: FormContext<'_>,
    name: Seq<char>,
    position: int,
    r: Result<String, Error>,
)
    requires
        converts_form::<String>(form, ctx, r),
        ctx.name() == Some(name),
        position_of(form@, name) == Some(position),
    ensures
        r matches Ok(text) && text@ == form@[position].text(),
{
    law_member_converts_first_field::<String>(form, name, position, r);
    form.lemma_view();
}

/// A byte member, spelled out: without a field of its match name it is not
/// found; with one, it is the number that the first such field's text
/// denotes, or the parse error that carries that text.
pub proof fn law_byte_member(form: &MultipartForm, ctx: FormContext<'_>, name: Seq<char>, r: Result<u8, Error>)
    requires
        converts_form::<u8>(form, ctx, r),
        ctx.name() == Some(name),
    ensures
        match position_of(form@, name) {
            None => r matches Err(e) && is_not_found(e, name),
            Some(position) => match integer_within(form@[position].text(), false, 0, u8::MAX as int) {
                Some(value) => r == Ok::<u8, Error>(value as u8),
                None => r matches Err(e) && is_parse_error(e, form@[position].text(), "u8"@),
            },
        },
{
    if position_of(form@, name) is Some {
        law_member_converts_first_field::<u8>(form, name, position_of(form@, name)->0, r);
        form.lemma_view();
    }
}

/// An optional byte member, spelled out: it never fails, and has a value
/// where and only where the form has a field of its match name and the
/// first such field's text denotes a byte.
pub proof fn law_optional_byte_member(
    form: &MultipartForm,
    ctx: FormContext<'_>,
    name: Seq<char>,
    r: Result<Option<u8>, Error>,
)
    requires
        converts_form::<Option<u8>>(form, ctx, r),
        ctx.name() == Some(name),
    ensures
        r == Ok::<Option<u8>, Error>(
            match position_of(form@, name) {
                None => None,
                Some(position) => match integer_within(form@[position].text(), false, 0, u8::MAX as int) {
                    Some(value) => Some(value as u8),
                    None => None,
                },
            },
        ),
{
    let value = r->Ok_0;
    assert(converts_form_leniently::<u8>(form, ctx, value));
    let inner = choose|inner: Result<u8, Error>| #[trigger]
        converts_form(form, ctx, inner) && value == ok_of(inner);
    law_byte_member(form, ctx, name, inner);
}

/// The bytes that the texts of the first `count` fields denote, in order;
/// a field whose text denotes none is passed over.
pub open spec fn bytes_upto(fields: Seq<FieldView>, count: int) -> Seq<u8>
    decreases count,
{
    if count <= 0 {
        Seq::empty()
    } else {
        match integer_within(fields[count - 1].text(), false, 0, u8::MAX as int) {
            Some(value) => bytes_upto(fields, count - 1).push(value as u8),
            None => bytes_upto(fields, count - 1),
        }
    }
}

/// The successes among outcomes that agree with the bytes of the fields are
/// the bytes of the fields.
proof fn lemma_byte_successes(fields: Seq<FieldView>, outcomes: Seq<Result<u8, Error>>)
    requires
        outcomes.len() <= fields.len(),
        forall|i: int|
            0 <= i < outcomes.len() ==> ok_of(#[trigger] outcomes[i]) == match integer_within(
                fields[i].text(),
                false,
                0,
                u8::MAX as int,
            ) {
                Some(value) => Some(value as u8),
                None => None,
            },
    ensures
        successes(outcomes) == bytes_upto(fields, outcomes.len() as int),
    decreases outcomes.len(),
{
    if outcomes.len() > 0 {
        let last = outcomes.len() - 1;
        assert(ok_of(outcomes[last]) == match integer_within(fields[last].text(), false, 0, u8::MAX as int) {
            Some(value) => Some(value as u8),
            None => None,
        });
        lemma_byte_successes(fields, outcomes.drop_last());
    }
}

/// A list of bytes, spelled out: it holds, in the order of the form, the
/// number of every field whose text denotes a byte, whatever the names of
/// the fields and whatever the context.
pub proof fn law_byte_list(form: &MultipartForm, ctx: FormContext<'_>, r: Result<Vec<u8>, Error>)
    requires
        converts_form::<Vec<u8>>(form, ctx, r),
    ensures
        r matches Ok(values) && values@ == bytes_upto(form@, form@.len() as int),
{
    let values = r->Ok_0;
    let outcomes = choose|outcomes: Seq<Result<u8, Error>>|
        scans(form, outcomes) && values@ == successes(outcomes);
    form.lemma_view();
    assert forall|i: int| 0 <= i < outcomes.len() implies ok_of(#[trigger] outcomes[i]) == match integer_within(
        form@[i].text(),
        false,
        0,
        u8::MAX as int,
    ) {
        Some(value) => Some(value as u8),
        None => None,
    } by {
        assert(converts_field(form, i, outcomes[i]));
        assert(reads_text::<u8>(form@[i].text(), outcomes[i]));
    }
    lemma_byte_successes(form@, outcomes);
}

/// The byte that a text denotes, or the text itself where it denotes none.
pub open spec fn byte_or_text(text: Seq<char>) -> Result<u8, Seq<char>> {
    match integer_within(text, false, 0, u8::MAX as int) {
        Some(value) => Ok(value as u8),
        None => Err(text),
    }
}

/// The map from bytes to bytes that the named fields among the first
/// `count` make, each keyed by its name and valued by its text, a later
/// field replacing an earlier one of the same key; or the offending text of
/// the first named field that makes no entry: its name, or else its text.
pub open spec fn byte_map_upto(fields: Seq<FieldView>, count: int) -> Result<Map<u8, u8>, Seq<char>>
    decreases count,
{
    if count <= 0 {
        Ok(Map::empty())
    } else {
        match byte_map_upto(fields, count - 1) {
            Err(text) => Err(text),
            Ok(earlier) => match fields[count - 1].name {
                None => Ok(earlier),
                Some(name) => match byte_or_text(name) {
                    Err(text) => Err(text),
                    Ok(key) => match byte_or_text(fields[count - 1].text()) {
                        Err(text) => Err(text),
                        Ok(value) => Ok(earlier.insert(key, value)),
                    },
                },
            },
        }
    }
}

/// What a named field converts to as a pair of bytes.
proof fn lemma_byte_pair(form: &MultipartForm, at: int, r: Result<(u8, u8), Error>)
    requires
        0 <= at < form@.len(),
        form@[at].name is Some,
        converts_pair::<u8, u8>(&form.fields_spec()[at], form, r),
    ensures
        match byte_or_text(form@[at].name->0) {
            Err(text) => r matches Err(e) && is_parse_error(e, text, "u8"@),
            Ok(key) => match byte_or_text(form@[at].text()) {
                Err(text) => r matches Err(e) && is_parse_error(e, text, "u8"@),
                Ok(value) => r == Ok::<(u8, u8), Error>((key, value)),
            },
        },
{
    form.lemma_view();
    let field = &form.fields_spec()[at];
    let name = form@[at].name->0;
    let key = choose|key: Result<u8, Error>| #[trigger]
        reads_text(name, key) && match key {
            Err(e) => r == Err::<(u8, u8), Error>(e),
            Ok(k) => exists|value: Result<u8, Error>| #[trigger]
                call_ensures(<u8 as FromMultipartField>::from_field, (field, form), value)
                    && crate::containers::pairs_with(k, value, r),
        };
    if key is Ok {
        let k = key->Ok_0;
        let value = choose|value: Result<u8, Error>| #[trigger]
            call_ensures(<u8 as FromMultipartField>::from_field, (field, form), value)
                && crate::containers::pairs_with(k, value, r);
        assert(reads_text::<u8>(field@.text(), value));
    }
}

/// The entries of the named fields make the map of the fields.
proof fn lemma_byte_entries(form: &MultipartForm, count: int, entries: Seq<(u8, u8)>)
    requires
        0 <= count <= form@.len(),
        entries_upto(form, count, entries),
    ensures
        byte_map_upto(form@, count) == Ok::<Map<u8, u8>, Seq<char>>(map_of(entries)),
    decreases count,
{
    if count > 0 {
        if form@[count - 1].name is None {
            lemma_byte_entries(form, count - 1, entries);
        } else {
            lemma_byte_entries(form, count - 1, entries.drop_last());
            lemma_byte_pair(form, count - 1, Ok::<(u8, u8), Error>(entries.last()));
        }
    }
}

/// A fault among the first fields is the fault of them all.
proof fn lemma_byte_map_fault(fields: Seq<FieldView>, count: int, all: int)
    requires
        0 <= count <= all,
        byte_map_upto(fields, count) is Err,
    ensures
        byte_map_upto(fields, all) == byte_map_upto(fields, count),
    decreases all - count,
{
    if count < all {
        lemma_byte_map_fault(fields, count, all - 1);
    }
}

/// A map from bytes to bytes, spelled out: it has one entry for every named
/// field, keyed by the byte that the name denotes and valued by the byte
/// that the text denotes; the first named field whose name or text denotes
/// no byte fails the whole with the parse error that carries the offending
/// text. Fields without a name are passed over, and so is the context.
pub proof fn law_byte_map(
    form: &MultipartForm,
    ctx: FormContext<'_>,
    r: Result<std::collections::HashMap<u8, u8>, Error>,
)
    requires
        converts_form::<std::collections::HashMap<u8, u8>>(form, ctx, r),
    ensures
        match byte_map_upto(form@, form@.len() as int) {
            Ok(map) => r matches Ok(made) && made@ == map,
            Err(text) => r matches Err(e) && is_parse_error(e, text, "u8"@),
        },
{
    broadcast use vstd::std_specs::hash::group_hash_axioms;

    assert(converts_map::<u8, u8, std::collections::HashMap<u8, u8>>(form, r));
    match r {
        Ok(made) => {
            let entries = choose|entries: Seq<(u8, u8)>| #[trigger]
                entries_of(form, entries) && (<std::collections::HashMap<u8, u8> as KeyedStore<
                    u8,
                    u8,
                >>::lawful() ==> made.contents() == map_of(entries));
            lemma_byte_entries(form, form@.len() as int, entries);
        },
        Err(e) => {
            let (at, entries) = choose|at: int, entries: Seq<(u8, u8)>|
                {
                    &&& 0 <= at < form@.len()
                    &&& form@[at].name is Some
                    &&& #[trigger] entries_upto::<u8, u8>(form, at, entries)
                    &&& converts_pair(&form.fields_spec()[at], form, Err::<(u8, u8), Error>(e))
                };
            lemma_byte_entries(form, at, entries);
            lemma_byte_pair(form, at, Err::<(u8, u8), Error>(e));
            assert(byte_map_upto(form@, at + 1) is Err);
            lemma_byte_map_fault(form@, at + 1, form@.len() as int);
        },
    }
}

/// A collection of files under a name keeps to its name: every file in it
/// was sent under that name, and it is never longer than the form.
pub proof fn law_collection_keeps_to_its_name(fields: Seq<FieldView>, name: Seq<char>, files: Seq<FileView>)
    requires
        collected(fields, Some(name)) == Some(files),
    ensures
        files.len() <= fields.len(),
        forall|k: int| 0 <= k < files.len() ==> (#[trigger] files[k]).name == name,
    decreases fields.len(),
{
    if fields.len() > 0 {
        let earlier = collected(fields.drop_last(), Some(name))->0;
        law_collection_keeps_to_its_name(fields.drop_last(), name, earlier);
    }
}

/// A collection of files under a name passes over nothing of its name: a
/// form whose fields are all files of that name is collected whole.
pub proof fn law_collection_takes_its_files(fields: Seq<FieldView>, name: Seq<char>)
    requires
        forall|i: int| 0 <= i < fields.len() ==> (#[trigger] fields[i]).name == Some(name) && fields[i].file_name is Some,
    ensures
        collected(fields, Some(name)) matches Some(files) && files.len() == fields.len() && forall|i: int|
            0 <= i < fields.len() ==> Some(#[trigger] files[i]) == file_of(fields[i]),
    decreases fields.len(),
{
    if fields.len() > 0 {
        law_collection_takes_its_files(fields.drop_last(), name);
        assert(fields.last() == fields[fields.len() - 1]);
    }
}

/// Where no member among the first `count` names a function, no answer is
/// read: the first fault is the same under any answers.
proof fn lemma_no_function_no_question(
    sets: Seq<Option<DirectiveSet>>,
    left: Seq<bool>,
    right: Seq<bool>,
    count: int,
)
    requires
        0 <= count <= sets.len(),
        forall|i: int| 0 <= i < count ==> with_of(#[trigger] sets[i]) is None,
    ensures
        first_fault(sets, left, count) == first_fault(sets, right, count),
    decreases count,
{
    if count > 0 {
        lemma_no_function_no_question(sets, left, right, count - 1);
    }
}

/// A record in which no member names a function is derived without a
/// question to anyone: the result is the first member whose `rename` is no
/// field name, or else the derivation.
pub proof fn law_derivation_without_functions(
    input: RecordInput,
    sets: Seq<Option<DirectiveSet>>,
    r: Result<Derivation, crate::derive::DeriveError>,
)
    requires
        derivation_of(input, r),
        input.shape == crate::derive::Shape::Named,
        attributes_upto(input.members@, input.members@.len() as int) == Ok::<
            Seq<Option<DirectiveSet>>,
            crate::derive::DeriveError,
        >(sets),
        forall|i: int| 0 <= i < sets.len() ==> with_of(#[trigger] sets[i]) is None,
    ensures
        match first_fault(sets, Seq::new(sets.len(), |i: int| true), input.members@.len() as int) {
            Some(e) => r == Err::<Derivation, crate::derive::DeriveError>(e),
            None => r matches Ok(derivation) && derives(derivation, input, sets),
        },
{
    let count = input.members@.len() as int;
    lemma_attributes_len(input.members@, count);
    let answers = choose|answers: Seq<bool>| #[trigger]
        answers_given(sets, answers) && match first_fault(sets, answers, count) {
            Some(e) => r == Err::<Derivation, crate::derive::DeriveError>(e),
            None => r matches Ok(derivation) && derives(derivation, input, sets),
        };
    lemma_no_function_no_question(sets, answers, Seq::new(sets.len(), |i: int| true), count);
}

/// Where the first fault is a `with` that is no path, it is that of a member
/// that names a function, whose `rename` is valid, for which the answer was
/// no, and before which no member has a fault.
proof fn lemma_invalid_with(sets: Seq<Option<DirectiveSet>>, answers: Seq<bool>, count: int, member: usize)
    requires
        0 <= count <= usize::MAX,
        first_fault(sets, answers, count) == Some(crate::derive::DeriveError::InvalidWith { member }),
    ensures
        member < count,
        with_of(sets[member as int]) is Some,
        rename_is_valid(sets[member as int]),
        !answers[member as int],
        first_fault(sets, answers, member as int) is None,
    decreases count,
{
    if count > 0 {
        if first_fault(sets, answers, count - 1) is Some {
            lemma_invalid_with(sets, answers, count - 1, member);
        }
    }
}

/// `InvalidWith` comes only for a member that names a function: its
/// `rename` is valid, `syn` answered that the text of its `with` is no path,
/// and no member before it has a `rename` that is no field name.
pub proof fn law_invalid_with_names_a_function(
    input: RecordInput,
    sets: Seq<Option<DirectiveSet>>,
    member: usize,
)
    requires
        derivation_of(
            input,
            Err::<Derivation, crate::derive::DeriveError>(crate::derive::DeriveError::InvalidWith { member }),
        ),
        input.shape == crate::derive::Shape::Named,
        input.members@.len() <= usize::MAX,
        attributes_upto(input.members@, input.members@.len() as int) == Ok::<
            Seq<Option<DirectiveSet>>,
            crate::derive::DeriveError,
        >(sets),
    ensures
        member < input.members@.len(),
        with_of(sets[member as int]) matches Some(path) && is_path_answer(path, false),
        forall|j: int| 0 <= j <= member ==> rename_is_valid(#[trigger] sets[j]),
{
    let count = input.members@.len() as int;
    lemma_attributes_len(input.members@, count);
    let answers = choose|answers: Seq<bool>| #[trigger]
        answers_given(sets, answers) && match first_fault(sets, answers, count) {
            Some(e) => Err::<Derivation, crate::derive::DeriveError>(
                crate::derive::DeriveError::InvalidWith { member },
            ) == Err::<Derivation, crate::derive::DeriveError>(e),
            None => false,
        };
    lemma_invalid_with(sets, answers, count, member);
    assert(is_asked(sets, answers, member as int));
    assert forall|j: int| 0 <= j <= member implies rename_is_valid(#[trigger] sets[j]) by {
        if j < member {
            lemma_no_fault_at(sets, answers, member as int, j);
        }
    }
}

/// A list depends on the form alone, where the conversion of each field can
/// return one value only: two lists collected from one form are the same,
/// whatever field or context the conversions were handed.
pub proof fn law_list_depends_on_form_alone<T: FromMultipartField>(
    form: &MultipartForm,
    first: Seq<T>,
    second: Seq<T>,
)
    requires
        collects(form, first),
        collects(form, second),
        forall|i: int, a: Result<T, Error>, b: Result<T, Error>|
            0 <= i < form@.len() && #[trigger] converts_field(form, i, a) && #[trigger] converts_field(form, i, b)
                ==> ok_of(a) == ok_of(b),
    ensures
        first == second,
{
    let left = choose|outcomes: Seq<Result<T, Error>>| scans(form, outcomes) && first == successes(outcomes);
    let right = choose|outcomes: Seq<Result<T, Error>>| scans(form, outcomes) && second == successes(outcomes);
    assert forall|i: int| 0 <= i < left.len() implies ok_of(#[trigger] left[i]) == ok_of(right[i]) by {
        assert(converts_field(form, i, left[i]));
        assert(converts_field(form, i, right[i]));
    }
    lemma_successes_agree(left, right);
}

/// A renamed member binds to its new name. Its plan is matched against the
/// `rename` of its directives, which is a field name.
pub proof fn law_rename_is_match_name(input: RecordInput, derivation: Derivation, index: int, set: DirectiveSet)
    requires
        derivation_of(input, Ok::<Derivation, crate::derive::DeriveError>(derivation)),
        0 <= index < input.members@.len(),
        member_directives(input.members@[index]) == Ok::<
            Option<DirectiveSet>,
            crate::directive::DirectiveError,
        >(Some(set)),
        set.rename is Some,
    ensures
        derivation.members@.len() == input.members@.len(),
        derivation.members@[index].member@ == input.members@[index].name@,
        derivation.members@[index].match_name@ == set.rename->0,
        is_field_name(set.rename->0),
{
    let count = input.members@.len() as int;
    let sets = attributes_upto(input.members@, count)->Ok_0;
    lemma_attributes_at(input.members@, count, index);
    let answers = choose|answers: Seq<bool>| #[trigger]
        answers_given(sets, answers) && first_fault(sets, answers, count) is None;
    lemma_no_fault_at(sets, answers, count, index);
    assert(plans(derivation.members@[index], input.members@[index], sets[index]));
}

/// A member without a `rename` binds to its own declared name.
pub proof fn law_declared_name_is_match_name(input: RecordInput, derivation: Derivation, index: int)
    requires
        derivation_of(input, Ok::<Derivation, crate::derive::DeriveError>(derivation)),
        0 <= index < input.members@.len(),
        match member_directives(input.members@[index]) {
            Ok(Some(set)) => set.rename is None,
            _ => true,
        },
    ensures
        derivation.members@.len() == input.members@.len(),
        derivation.members@[index].match_name@ == input.members@[index].name@,
{
    let count = input.members@.len() as int;
    let sets = attributes_upto(input.members@, count)->Ok_0;
    lemma_attributes_at(input.members@, count, index);
    assert(plans(derivation.members@[index], input.members@[index], sets[index]));
}

/// The directives of the member at `index` stand at `index`.
proof fn lemma_attributes_at(members: Seq<crate::derive::MemberInput>, count: int, index: int)
    requires
        0 <= index < count,
        attributes_upto(members, count) is Ok,
    ensures
        attributes_upto(members, count)->Ok_0.len() == count,
        member_directives(members[index]) == Ok::<Option<DirectiveSet>, crate::directive::DirectiveError>(
            attributes_upto(members, count)->Ok_0[index],
        ),
    decreases count,
{
    if count > 0 {
        if index < count - 1 {
            lemma_attributes_at(members, count - 1, index);
        } else {
            lemma_attributes_len(members, count - 1);
        }
    }
}

/// The directives of `count` members are `count` many.
proof fn lemma_attributes_len(members: Seq<crate::derive::MemberInput>, count: int)
    requires
        0 <= count,
        attributes_upto(members, count) is Ok,
    ensures
        attributes_upto(members, count)->Ok_0.len() == count,
    decreases count,
{
    if count > 0 {
        lemma_attributes_len(members, count - 1);
    }
}

/// Where no member has a fault, the member at `index` has none.
proof fn lemma_no_fault_at(sets: Seq<Option<DirectiveSet>>, answers: Seq<bool>, count: int, index: int)
    requires
        0 <= index < count,
        first_fault(sets, answers, count) is None,
    ensures
        member_fault(sets[index], index, answers[index]) is None,
    decreases count,
{
    if index < count - 1 {
        lemma_no_fault_at(sets, answers, count - 1, index);
    }
}

/// A member never binds to a field that does not bear the name it is
/// matched against: where the form has no field of that name, the member is
/// not found, whatever other names the form's fields bear, the member's own
/// declared name among them.
pub proof fn law_member_binds_to_match_name_only<T: FromMultipartField>(
    form: &MultipartForm,
    match_name: Seq<char>,
    r: Result<T, Error>,
)
    requires
        converts_named(form, Some(match_name), r),
        forall|j: int| 0 <= j < form@.len() ==> (#[trigger] form@[j]).name != Some(match_name),
    ensures
        r matches Err(e) && is_not_found(e, match_name),
{
    lemma_position_from(form@, match_name, 0);
}

/// An optional member never fails.
pub proof fn law_optional_member_never_fails<T: FromMultipart>(
    form: &MultipartForm,
    ctx: FormContext<'_>,
    r: Result<Option<T>, Error>,
)
    requires
        converts_form::<Option<T>>(form, ctx, r),
    ensures
        r is Ok,
{
}

/// An optional member whose field is absent has no value: this holds of
/// every member type that is converted by the field it names.
pub proof fn law_optional_member_absent<T: FromMultipart + FromMultipartField>(
    form: &MultipartForm,
    ctx: FormContext<'_>,
    name: Seq<char>,
    r: Result<Option<T>, Error>,
)
    requires
        converts_form::<Option<T>>(form, ctx, r),
        ctx.name() == Some(name),
        position_of(form@, name) is None,
        forall|inner: Result<T, Error>| #[trigger]
            converts_form::<T>(form, ctx, inner) ==> converts_named::<T>(form, ctx.name(), inner),
    ensures
        r matches Ok(None),
{
    let value = r->Ok_0;
    assert(converts_form_leniently::<T>(form, ctx, value));
    let inner = choose|inner: Result<T, Error>| #[trigger]
        converts_form(form, ctx, inner) && value == ok_of(inner);
    assert(converts_named::<T>(form, ctx.name(), inner));
}

/// An optional member whose field does not convert has no value: this
/// holds of every member type that is converted by the field it names.
pub proof fn law_optional_member_unreadable<T: FromMultipart + FromMultipartField>(
    form: &MultipartForm,
    ctx: FormContext<'_>,
    name: Seq<char>,
    position: int,
    r: Result<Option<T>, Error>,
)
    requires
        converts_form::<Option<T>>(form, ctx, r),
        ctx.name() == Some(name),
        position_of(form@, name) == Some(position),
        forall|inner: Result<T, Error>| #[trigger]
            converts_form::<T>(form, ctx, inner) ==> converts_named::<T>(form, ctx.name(), inner),
        forall|outcome: Result<T, Error>| #[trigger]
            converts_field::<T>(form, position, outcome) ==> outcome is Err,
    ensures
        r matches Ok(None),
{
    let value = r->Ok_0;
    assert(converts_form_leniently::<T>(form, ctx, value));
    let inner = choose|inner: Result<T, Error>| #[trigger]
        converts_form(form, ctx, inner) && value == ok_of(inner);
    assert(converts_named::<T>(form, ctx.name(), inner));
}

/// The successes of outcomes that agree, position by position, on their
/// values are the same.
proof fn lemma_successes_agree<T>(left: Seq<Result<T, Error>>, right: Seq<Result<T, Error>>)
    requires
        left.len() == right.len(),
        forall|i: int| 0 <= i < left.len() ==> ok_of(#[trigger] left[i]) == ok_of(right[i]),
    ensures
        successes(left) == successes(right),
    decreases left.len(),
{
    if left.len() > 0 {
        assert(ok_of(left[left.len() - 1]) == ok_of(right[left.len() - 1]));
        lemma_successes_agree(left.drop_last(), right.drop_last());
    }
}

/// A list holds every field that converts, in the order of the form, and no
/// other: where the conversion of each field can return nothing but one
/// outcome, the list is the successes among these outcomes, whatever the
/// names of the fields, and with one value for each field that bears a name
/// again.
pub proof fn law_list_collects_every_field<T: FromMultipartField>(
    form: &MultipartForm,
    expected: Seq<Result<T, Error>>,
    values: Seq<T>,
)
    requires
        collects(form, values),
        expected.len() == form@.len(),
        forall|i: int, outcome: Result<T, Error>|
            0 <= i < form@.len() && #[trigger] converts_field(form, i, outcome) ==> ok_of(outcome) == ok_of(
                expected[i],
            ),
    ensures
        values == successes(expected),
{
    let outcomes = choose|outcomes: Seq<Result<T, Error>>|
        scans(form, outcomes) && values == successes(outcomes);
    assert forall|i: int| 0 <= i < outcomes.len() implies ok_of(#[trigger] outcomes[i]) == ok_of(
        expected[i],
    ) by {
        assert(converts_field(form, i, outcomes[i]));
    }
    lemma_successes_agree(outcomes, expected);
}

/// A list is never longer than the form.
pub proof fn law_list_is_bounded<T: FromMultipartField>(form: &MultipartForm, values: Seq<T>)
    requires
        collects(form, values),
    ensures
        values.len() <= form@.len(),
{
    let outcomes = choose|outcomes: Seq<Result<T, Error>>|
        scans(form, outcomes) && values == successes(outcomes);
    lemma_successes_len(outcomes);
}

/// There are no more successes than outcomes.
proof fn lemma_successes_len<T>(outcomes: Seq<Result<T, Error>>)
    ensures
        successes(outcomes).len() <= outcomes.len(),
    decreases outcomes.len(),
{
    if outcomes.len() > 0 {
        lemma_successes_len(outcomes.drop_last());
    }
}

/// How many of the first `count` fields bear a name.
pub open spec fn named_count(fields: Seq<FieldView>, count: int) -> nat
    decreases count,
{
    if count <= 0 {
        0
    } else if fields[count - 1].name is Some {
        named_count(fields, count - 1) + 1
    } else {
        named_count(fields, count - 1)
    }
}

/// Every named field contributes exactly one entry.
pub proof fn law_map_entry_per_named_field<K: FromText, V: FromMultipartField>(
    form: &MultipartForm,
    count: int,
    entries: Seq<(K, V)>,
)
    requires
        0 <= count <= form@.len(),
        entries_upto(form, count, entries),
    ensures
        entries.len() == named_count(form@, count),
    decreases count,
{
    if count > 0 {
        if form@[count - 1].name is None {
            law_map_entry_per_named_field(form, count - 1, entries);
        } else {
            law_map_entry_per_named_field(form, count - 1, entries.drop_last());
        }
    }
}

/// Where the entries of a prefix of the form exist at all, those of a
/// shorter prefix do.
proof fn lemma_entries_prefix<K: FromText, V: FromMultipartField>(
    form: &MultipartForm,
    count: int,
    entries: Seq<(K, V)>,
    at: int,
) -> (earlier: Seq<(K, V)>)
    requires
        0 <= at < count <= form@.len(),
        entries_upto(form, count, entries),
        form@[at].name is Some,
    ensures
        exists|pair: (K, V)| converts_pair(&form.fields_spec()[at], form, Ok::<(K, V), Error>(pair)),
    decreases count,
{
    if at == count - 1 {
        assert(converts_pair(&form.fields_spec()[at], form, Ok::<(K, V), Error>(entries.last())));
        entries
    } else if form@[count - 1].name is None {
        lemma_entries_prefix(form, count - 1, entries, at)
    } else {
        lemma_entries_prefix(form, count - 1, entries.drop_last(), at)
    }
}

/// A field whose name does not read as a key fails the whole map: where
/// some named field cannot convert to an entry, the conversion of the form
/// does not succeed.
pub proof fn law_map_fails_on_bad_entry<K: FromText, V: FromMultipartField, M: KeyedStore<K, V>>(
    form: &MultipartForm,
    at: int,
    r: Result<M, Error>,
)
    requires
        converts_map::<K, V, M>(form, r),
        0 <= at < form@.len(),
        form@[at].name is Some,
        forall|outcome: Result<(K, V), Error>| #[trigger]
            converts_pair(&form.fields_spec()[at], form, outcome) ==> outcome is Err,
    ensures
        r is Err,
{
    if r is Ok {
        let entries = choose|entries: Seq<(K, V)>| #[trigger]
            entries_of(form, entries) && (M::lawful() ==> r->Ok_0.contents() == map_of(entries));
        lemma_entries_prefix(form, form@.len() as int, entries, at);
    }
}

} // verus!
