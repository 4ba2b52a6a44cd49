//! The derivation of a record's conversion from its declaration.
//!
//! A record type declares its members in order; each member may carry one
//! set of directives. From that the derivation resolves, member by member,
//! which field name the member is matched against and which conversion
//! produces it: a function that the member names with `with`, or the record
//! conversion capability of the member's own type.
use crate::directive::{directives, DirectiveError, DirectiveSet, MulterAttribute};
use crate::multipart_form::opt_text;
use crate::text::{chars_of, same_text};
use vstd::prelude::*;

verus! {

/// `syn::parse_str::<syn::Path>`: whether the whole text parses as a path,
/// such as `path::to::function`. Which lexer reads the text depends on
/// whether the call is made inside a macro expansion, so nothing is claimed
/// of the answer.
#[verifier::external_body]
fn parses_as_path(text: &str) -> (ok: bool) {
    syn::parse_str::<syn::Path>(text).is_ok()
}

/// `answer` is what `syn` answered when it was asked whether `path` is a
/// path.
pub closed spec fn is_path_answer(path: Seq<char>, answer: bool) -> bool {
    exists|s: &str| s@ == path && #[trigger] call_ensures(parses_as_path, (s,), answer)
}

/// The characters that a field name may start with: a letter, `_`, or any
/// character outside ASCII.
pub open spec fn is_name_start(c: char) -> bool {
    ||| 'a' as u32 <= c as u32 <= 'z' as u32
    ||| 'A' as u32 <= c as u32 <= 'Z' as u32
    ||| c == '_'
    ||| c as u32 >= 128
}

/// The characters that a field name may go on with: those it may start
/// with, digits, and `-`, `.`, `[`, `]`.
pub open spec fn is_name_char(c: char) -> bool {
    ||| is_name_start(c)
    ||| '0' as u32 <= c as u32 <= '9' as u32
    ||| c == '-'
    ||| c == '.'
    ||| c == '['
    ||| c == ']'
}

/// Whether a text is a field name: `age`, `first-name`, `files[]`, but not
/// `1`, `$number`, nor anything with a blank, a quote or an operator in it.
pub open spec fn is_field_name(name: Seq<char>) -> bool {
    &&& name.len() > 0
    &&& is_name_start(name[0])
    &&& forall|i: int| 0 < i < name.len() ==> is_name_char(#[trigger] name[i])
}

fn name_start(c: char) -> (r: bool)
    ensures
        r == is_name_start(c),
{
    let code: u32 = c as u32;
    (code >= 'a' as u32 && code <= 'z' as u32) || (code >= 'A' as u32 && code <= 'Z' as u32) || c
        == '_' || code >= 128
}

fn name_char(c: char) -> (r: bool)
    ensures
        r == is_name_char(c),
{
    let code: u32 = c as u32;
    name_start(c) || (code >= '0' as u32 && code <= '9' as u32) || c == '-' || c == '.' || c == '['
        || c == ']'
}

/// Whether a text is a field name.
pub fn valid_field_name(name: &str) -> (r: bool)
    ensures
        r == is_field_name(name@),
{
    let chars = chars_of(name);
    if chars.len() == 0 || !name_start(chars[0]) {
        return false;
    }
    let mut i: usize = 1;
    while i < chars.len()
        invariant
            1 <= i <= chars@.len(),
            chars@ == name@,
            forall|j: int| 0 < j < i ==> is_name_char(#[trigger] chars@[j]),
        decreases chars@.len() - i,
    {
        if !name_char(chars[i]) {
            return false;
        }
        i += 1;
    }
    true
}

/// What kind of type a declaration declares.
#[derive(Debug, Clone, Copy, PartialEq, Eq, Structural)]
pub enum Shape {
    /// A struct with named members: a record.
    Named,
    /// A struct whose members have no names.
    Tuple,
    /// A struct without members.
    Unit,
    /// An enumeration.
    Enum,
    /// A union.
    Union,
}

/// One annotation of a member: `#[path(arguments)]`.
#[derive(Debug, Clone)]
pub struct AttributeInput {
    /// The name before the parentheses.
    pub path: String,
    /// The text between the parentheses.
    pub arguments: String,
}

/// One declared member of a record.
#[derive(Debug, Clone)]
pub struct MemberInput {
    /// The member's declared name.
    pub name: String,
    /// The member's declared type, as written.
    pub ty: String,
    /// The member's annotations, in order.
    pub attributes: Vec<AttributeInput>,
}

/// The declaration of a type for which a conversion is to be derived.
#[derive(Debug, Clone)]
pub struct RecordInput {
    /// The type's name.
    pub name: String,
    /// The generic parameters as they follow `impl`, with their brackets;
    /// empty for a type without parameters.
    pub impl_generics: String,
    /// The generic arguments as they follow the type's name, with their
    /// brackets.
    pub ty_generics: String,
    /// The `where` clause, if any, starting with `where`.
    pub where_clause: String,
    /// What kind of type it is.
    pub shape: Shape,
    /// The members, in declaration order.
    pub members: Vec<MemberInput>,
}

/// Why no conversion can be derived for a declaration.
#[derive(Debug, Clone, Copy, PartialEq, Eq, Structural)]
pub enum DeriveError {
    /// The type is an enumeration or a union: only structs are supported.
    NotAStruct,
    /// The struct's members have no names: only named fields are supported.
    UnnamedMembers,
    /// The directives of the member at this position are not well-formed.
    Directive { member: usize, error: DirectiveError },
    /// The `rename` of the member at this position is no field name.
    InvalidRename { member: usize },
    /// The `with` of the member at this position is no path.
    InvalidWith { member: usize },
}

/// How one member of a record is converted.
#[derive(Debug, Clone)]
pub struct MemberPlan {
    /// The member's declared name.
    pub member: String,
    /// The member's declared type.
    pub ty: String,
    /// The field name that the member is matched against.
    pub match_name: String,
    /// The function that converts the member, where it names one.
    pub with: Option<String>,
}

/// The derived conversion of a record: one plan per member, in declaration
/// order.
#[derive(Debug, Clone)]
pub struct Derivation {
    /// The record type's name.
    pub name: String,
    /// The generic parameters as they follow `impl`.
    pub impl_generics: String,
    /// The generic arguments as they follow the type's name.
    pub ty_generics: String,
    /// The `where` clause, if any.
    pub where_clause: String,
    /// The plans of the members, in declaration order.
    pub members: Vec<MemberPlan>,
}

/// The name of the annotation that carries directives.
pub open spec fn is_directive_path(path: Seq<char>) -> bool {
    path == "multer"@
}

/// The directives that the first `count` annotations of a member give it:
/// those of the last `multer` annotation among them, if there is one; or the
/// fault of the first `multer` annotation that is not well-formed.
pub open spec fn directives_upto(attributes: Seq<AttributeInput>, count: int) -> Result<
    Option<DirectiveSet>,
    DirectiveError,
>
    decreases count,
{
    if count <= 0 {
        Ok(None)
    } else {
        match directives_upto(attributes, count - 1) {
            Err(e) => Err(e),
            Ok(earlier) => if is_directive_path(attributes[count - 1].path@) {
                match directives(attributes[count - 1].arguments@) {
                    Ok(set) => Ok(Some(set)),
                    Err(e) => Err(e),
                }
            } else {
                Ok(earlier)
            },
        }
    }
}

/// The directives of a member.
pub open spec fn member_directives(member: MemberInput) -> Result<Option<DirectiveSet>, DirectiveError> {
    directives_upto(member.attributes@, member.attributes@.len() as int)
}

/// The directives of the first `count` members, or the fault of the first
/// member among them whose directives are not well-formed.
pub open spec fn attributes_upto(members: Seq<MemberInput>, count: int) -> Result<
    Seq<Option<DirectiveSet>>,
    DeriveError,
>
    decreases count,
{
    if count <= 0 {
        Ok(Seq::empty())
    } else {
        match attributes_upto(members, count - 1) {
            Err(e) => Err(e),
            Ok(earlier) => match member_directives(members[count - 1]) {
                Ok(set) => Ok(earlier.push(set)),
                Err(error) => Err(DeriveError::Directive { member: (count - 1) as usize, error }),
            },
        }
    }
}

/// The mathematical value of optional directives.
pub open spec fn opt_set(attribute: Option<MulterAttribute>) -> Option<DirectiveSet> {
    match attribute {
        Some(a) => Some(a@),
        None => None,
    }
}

/// The field name that a member is matched against: the `rename` of its
/// directives, else its own declared name.
pub open spec fn match_name_of(member: MemberInput, set: Option<DirectiveSet>) -> Seq<char> {
    match set {
        Some(DirectiveSet { rename: Some(name), .. }) => name,
        _ => member.name@,
    }
}

/// The function that a member's directives name, if any.
pub open spec fn with_of(set: Option<DirectiveSet>) -> Option<Seq<char>> {
    match set {
        Some(DirectiveSet { with: Some(path), .. }) => Some(path),
        _ => None,
    }
}

/// Whether the `rename` of a member's directives, if it has one, is a field
/// name.
pub open spec fn rename_is_valid(set: Option<DirectiveSet>) -> bool {
    match set {
        Some(DirectiveSet { rename: Some(name), .. }) => is_field_name(name),
        _ => true,
    }
}

/// What is wrong with the directives of the member at `index`, if anything,
/// given the answer to whether its `with` is a path: a `rename` that is no
/// field name, else a `with` that is no path. The answer counts only for a
/// member that names a function.
pub open spec fn member_fault(set: Option<DirectiveSet>, index: int, with_ok: bool) -> Option<DeriveError> {
    if !rename_is_valid(set) {
        Some(DeriveError::InvalidRename { member: index as usize })
    } else if with_of(set) is Some && !with_ok {
        Some(DeriveError::InvalidWith { member: index as usize })
    } else {
        None
    }
}

/// The fault of the first member among the first `count` that has one,
/// given one answer for each member.
pub open spec fn first_fault(sets: Seq<Option<DirectiveSet>>, answers: Seq<bool>, count: int) -> Option<
    DeriveError,
>
    decreases count,
{
    if count <= 0 {
        None
    } else {
        match first_fault(sets, answers, count - 1) {
            Some(e) => Some(e),
            None => member_fault(sets[count - 1], count - 1, answers[count - 1]),
        }
    }
}

/// Whether the question is put for the member at `index`: no member before
/// it has a fault, its `rename` is valid, and it names a function.
pub open spec fn is_asked(sets: Seq<Option<DirectiveSet>>, answers: Seq<bool>, index: int) -> bool {
    &&& first_fault(sets, answers, index) is None
    &&& rename_is_valid(sets[index])
    &&& with_of(sets[index]) is Some
}

/// `answers` holds one answer for each member: for a member for which the
/// question is put, what `syn` answered on the text of the member's `with`;
/// for every other member `true`, which is never read.
pub open spec fn answers_given(sets: Seq<Option<DirectiveSet>>, answers: Seq<bool>) -> bool {
    &&& answers.len() == sets.len()
    &&& forall|i: int|
        0 <= i < sets.len() ==> if is_asked(sets, answers, i) {
            is_path_answer(with_of(sets[i])->0, #[trigger] answers[i])
        } else {
            answers[i]
        }
}

/// `plan` is the plan of `member` under the directives `set`: the member
/// keeps its name and type, is matched against its resolved name, and is
/// converted by the function it names, if it names one.
pub open spec fn plans(plan: MemberPlan, member: MemberInput, set: Option<DirectiveSet>) -> bool {
    &&& plan.member@ == member.name@
    &&& plan.ty@ == member.ty@
    &&& plan.match_name@ == match_name_of(member, set)
    &&& opt_text(plan.with) == with_of(set)
}

/// `derivation` is the derivation of `input` under the directives `sets`:
/// the same type, and the plan of each member at the member's own position.
pub open spec fn derives(derivation: Derivation, input: RecordInput, sets: Seq<Option<DirectiveSet>>) -> bool {
    &&& derivation.name@ == input.name@
    &&& derivation.impl_generics@ == input.impl_generics@
    &&& derivation.ty_generics@ == input.ty_generics@
    &&& derivation.where_clause@ == input.where_clause@
    &&& derivation.members@.len() == input.members@.len()
    &&& forall|i: int|
        0 <= i < input.members@.len() ==> plans(#[trigger] derivation.members@[i], input.members@[i], sets[i])
}

/// What the derivation of `input` returns.
pub open spec fn derivation_of(input: RecordInput, r: Result<Derivation, DeriveError>) -> bool {
    match input.shape {
        Shape::Enum | Shape::Union => r == Err::<Derivation, DeriveError>(DeriveError::NotAStruct),
        Shape::Tuple | Shape::Unit => r == Err::<Derivation, DeriveError>(DeriveError::UnnamedMembers),
        Shape::Named => match attributes_upto(input.members@, input.members@.len() as int) {
            Err(e) => r == Err::<Derivation, DeriveError>(e),
            Ok(sets) => exists|answers: Seq<bool>| #[trigger]
                answers_given(sets, answers) && match first_fault(sets, answers, input.members@.len() as int) {
                    Some(e) => r == Err::<Derivation, DeriveError>(e),
                    None => r matches Ok(derivation) && derives(derivation, input, sets),
                },
        },
    }
}

/// Reads the directives of one member: those of its last `multer`
/// annotation.
fn member_attribute(member: &MemberInput) -> (r: Result<Option<MulterAttribute>, DirectiveError>)
    ensures
        match r {
            Ok(attribute) => member_directives(*member) == Ok::<Option<DirectiveSet>, DirectiveError>(
                opt_set(attribute),
            ),
            Err(e) => member_directives(*member) == Err::<Option<DirectiveSet>, DirectiveError>(e),
        },
{
    let mut found: Option<MulterAttribute> = None;
    let mut i: usize = 0;
    while i < member.attributes.len()
        invariant
            i <= member.attributes@.len(),
            directives_upto(member.attributes@, i as int) == Ok::<Option<DirectiveSet>, DirectiveError>(
                opt_set(found),
            ),
        decreases member.attributes@.len() - i,
    {
        let attribute = &member.attributes[i];
        if same_text(attribute.path.as_str(), "multer") {
            match MulterAttribute::parse(attribute.arguments.as_str()) {
                Ok(parsed) => {
                    found = Some(parsed);
                },
                Err(e) => {
                    proof {
                        lemma_directives_fault(
                            member.attributes@,
                            i as int + 1,
                            member.attributes@.len() as int,
                        );
                    }
                    return Err(e);
                },
            }
        }
        i += 1;
    }
    Ok(found)
}

/// A fault among the first annotations is the fault of them all.
proof fn lemma_directives_fault(attributes: Seq<AttributeInput>, count: int, all: int)
    requires
        0 <= count <= all,
        directives_upto(attributes, count) is Err,
    ensures
        directives_upto(attributes, all) == directives_upto(attributes, count),
    decreases all - count,
{
    if count < all {
        lemma_directives_fault(attributes, count, all - 1);
    }
}

/// A fault among the first members is the fault of them all.
proof fn lemma_attributes_fault(members: Seq<MemberInput>, count: int, all: int)
    requires
        0 <= count <= all,
        attributes_upto(members, count) is Err,
    ensures
        attributes_upto(members, all) == attributes_upto(members, count),
    decreases all - count,
{
    if count < all {
        lemma_attributes_fault(members, count, all - 1);
    }
}

/// A fault among the first members is the first fault of them all.
proof fn lemma_first_fault(sets: Seq<Option<DirectiveSet>>, answers: Seq<bool>, count: int, all: int)
    requires
        0 <= count <= all,
        first_fault(sets, answers, count) is Some,
    ensures
        first_fault(sets, answers, all) == first_fault(sets, answers, count),
    decreases all - count,
{
    if count < all {
        lemma_first_fault(sets, answers, count, all - 1);
    }
}

/// The first fault among the first members reads the first answers only.
proof fn lemma_first_fault_reads(sets: Seq<Option<DirectiveSet>>, left: Seq<bool>, right: Seq<bool>, count: int)
    requires
        0 <= count <= left.len(),
        count <= right.len(),
        forall|j: int| 0 <= j < count ==> left[j] == right[j],
    ensures
        first_fault(sets, left, count) == first_fault(sets, right, count),
    decreases count,
{
    if count > 0 {
        lemma_first_fault_reads(sets, left, right, count - 1);
    }
}

/// Reads the directives of every member, in declaration order: for each
/// member those of its last `multer` annotation, or nothing where it has
/// none.
pub fn get_fields_attributes(members: &Vec<MemberInput>) -> (r: Result<
    Vec<Option<MulterAttribute>>,
    DeriveError,
>)
    ensures
        match r {
            Ok(attributes) => {
                &&& attributes_upto(members@, members@.len() as int) matches Ok(sets)
                &&& sets.len() == members@.len()
                &&& attributes@.len() == members@.len()
                &&& forall|i: int| 0 <= i < members@.len() ==> opt_set(#[trigger] attributes@[i]) == sets[i]
            },
            Err(e) => attributes_upto(members@, members@.len() as int) == Err::<
                Seq<Option<DirectiveSet>>,
                DeriveError,
            >(e),
        },
{
    let mut attributes: Vec<Option<MulterAttribute>> = Vec::new();
    let mut i: usize = 0;
    while i < members.len()
        invariant
            i <= members@.len(),
            attributes@.len() == i,
            attributes_upto(members@, i as int) matches Ok(sets) && sets.len() == i && forall|j: int|
                0 <= j < i ==> opt_set(#[trigger] attributes@[j]) == sets[j],
        decreases members@.len() - i,
    {
        match member_attribute(&members[i]) {
            Ok(attribute) => {
                attributes.push(attribute);
            },
            Err(error) => {
                proof {
                    lemma_attributes_fault(members@, i as int + 1, members@.len() as int);
                }
                return Err(DeriveError::Directive { member: i, error });
            },
        }
        i += 1;
    }
    Ok(attributes)
}

/// The fault of the member at `index`, given whether its `rename`, if it
/// has one, is a field name, and whether its `with`, if it has one, is a
/// path: the rename is judged first.
pub fn judge_member(rename_ok: bool, with_ok: bool, index: usize) -> (fault: Option<DeriveError>)
    ensures
        fault == if !rename_ok {
            Some(DeriveError::InvalidRename { member: index })
        } else if !with_ok {
            Some(DeriveError::InvalidWith { member: index })
        } else {
            None
        },
{
    if !rename_ok {
        Some(DeriveError::InvalidRename { member: index })
    } else if !with_ok {
        Some(DeriveError::InvalidWith { member: index })
    } else {
        None
    }
}

/// Checks the directives of the member at `index`: the fault, and the
/// answer that was got for the member. The question is put only for a member
/// that names a function and whose `rename` is valid.
fn check_member(attribute: &Option<MulterAttribute>, index: usize) -> (checked: (Option<DeriveError>, bool))
    ensures
        checked.0 == member_fault(opt_set(*attribute), index as int, checked.1),
        if rename_is_valid(opt_set(*attribute)) && with_of(opt_set(*attribute)) is Some {
            is_path_answer(with_of(opt_set(*attribute))->0, checked.1)
        } else {
            checked.1
        },
{
    match attribute {
        Some(a) => {
            let rename_ok = match &a.rename {
                Some(name) => valid_field_name(name.as_str()),
                None => true,
            };
            let with_ok = match &a.with {
                Some(path) => if rename_ok {
                    parses_as_path(path.as_str())
                } else {
                    true
                },
                None => true,
            };
            (judge_member(rename_ok, with_ok, index), with_ok)
        },
        None => (None, true),
    }
}

/// Makes the plan of one member.
fn plan_member(member: &MemberInput, attribute: &Option<MulterAttribute>) -> (plan: MemberPlan)
    ensures
        plans(plan, *member, opt_set(*attribute)),
{
    let match_name = match attribute {
        Some(MulterAttribute { rename: Some(name), .. }) => name.clone(),
        _ => member.name.clone(),
    };
    let with = match attribute {
        Some(MulterAttribute { with: Some(path), .. }) => Some(path.clone()),
        _ => None,
    };
    MemberPlan { member: member.name.clone(), ty: member.ty.clone(), match_name, with }
}

/// Derives the conversion of a record from its declaration.
///
/// The declaration has to be a struct with named members. Each member is
/// matched against the `rename` of its directives, or else its own name, and
/// is converted by the function its directives name with `with`, or else by
/// the record conversion capability of its type. The plans come out in
/// declaration order.
///
/// Whether a `with` is a path is asked of `syn`, member by member, up to the
/// first fault. The result is the first fault in member order under the
/// answers that were got; for a record in which no member names a function
/// no question is put.
pub fn derive_from_multipart(input: &RecordInput) -> (r: Result<Derivation, DeriveError>)
    ensures
        derivation_of(*input, r),
{
    match input.shape {
        Shape::Enum | Shape::Union => {
            return Err(DeriveError::NotAStruct);
        },
        Shape::Tuple | Shape::Unit => {
            return Err(DeriveError::UnnamedMembers);
        },
        Shape::Named => {},
    }
    let attributes = match get_fields_attributes(&input.members) {
        Ok(attributes) => attributes,
        Err(e) => {
            return Err(e);
        },
    };
    let ghost sets = attributes_upto(input.members@, input.members@.len() as int)->Ok_0;
    let ghost count = input.members@.len() as int;
    let ghost mut answers: Seq<bool> = Seq::empty();
    let mut members: Vec<MemberPlan> = Vec::new();
    let mut i: usize = 0;
    while i < input.members.len()
        invariant
            i <= input.members@.len(),
            count == input.members@.len(),
            attributes@.len() == input.members@.len(),
            input.shape == Shape::Named,
            attributes_upto(input.members@, input.members@.len() as int) == Ok::<
                Seq<Option<DirectiveSet>>,
                DeriveError,
            >(sets),
            sets.len() == input.members@.len(),
            forall|j: int| 0 <= j < input.members@.len() ==> opt_set(#[trigger] attributes@[j]) == sets[j],
            answers.len() == i,
            first_fault(sets, answers, i as int) is None,
            forall|j: int|
                0 <= j < i ==> if rename_is_valid(sets[j]) && with_of(sets[j]) is Some {
                    is_path_answer(with_of(sets[j])->0, #[trigger] answers[j])
                } else {
                    answers[j]
                },
            members@.len() == i,
            forall|j: int| 0 <= j < i ==> plans(#[trigger] members@[j], input.members@[j], sets[j]),
        decreases input.members@.len() - i,
    {
        let (fault, answer) = check_member(&attributes[i], i);
        proof {
            let longer = answers.push(answer);
            lemma_first_fault_reads(sets, answers, longer, i as int);
            answers = longer;
        }
        assert(first_fault(sets, answers, i as int) is None);
        match fault {
            Some(e) => {
                proof {
                    let all = answers + Seq::new((count - i - 1) as nat, |j: int| true);
                    lemma_first_fault_reads(sets, answers, all, i as int + 1);
                    lemma_first_fault(sets, all, i as int + 1, count);
                    assert forall|j: int| 0 <= j < count implies if is_asked(sets, all, j) {
                        is_path_answer(with_of(sets[j])->0, #[trigger] all[j])
                    } else {
                        all[j]
                    } by {
                        if j <= i {
                            assert(all[j] == answers[j]);
                            lemma_first_fault_reads(sets, answers, all, i as int);
                            if first_fault(sets, all, j) is Some {
                                lemma_first_fault(sets, all, j, i as int);
                            }
                        } else {
                            lemma_first_fault(sets, all, i as int + 1, j);
                        }
                    }
                    assert(answers_given(sets, all));
                }
                return Err(e);
            },
            None => {},
        }
        members.push(plan_member(&input.members[i], &attributes[i]));
        i += 1;
    }
    proof {
        assert forall|j: int| 0 <= j < count implies if is_asked(sets, answers, j) {
            is_path_answer(with_of(sets[j])->0, #[trigger] answers[j])
        } else {
            answers[j]
        } by {
            if first_fault(sets, answers, j) is Some {
                lemma_first_fault(sets, answers, j, count);
            }
        }
        assert(answers_given(sets, answers));
    }
    Ok(
        Derivation {
            name: input.name.clone(),
            impl_generics: input.impl_generics.clone(),
            ty_generics: input.ty_generics.clone(),
            where_clause: input.where_clause.clone(),
            members,
        },
    )
}

} // verus!
