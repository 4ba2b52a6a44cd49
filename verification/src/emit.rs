//! The source text of a derived conversion: the implementation of the record
//! conversion capability that a derivation stands for.
use crate::derive::{Derivation, MemberPlan};
use vstd::prelude::*;
use vstd::string::*;

verus! {

/// The context that names a member's match name, as source text.
pub open spec fn context_text(match_name: Seq<char>) -> Seq<char> {
    "::multer_derive::FormContext { field_name: ::core::option::Option::Some(\""@ + match_name + "\") }"@
}

/// The statement that converts one member: a call of the function that the
/// member names, or of the record conversion capability of its type; either
/// way with the whole form and the context of the member's match name, and
/// with `?` to stop at a failure.
pub open spec fn member_text(plan: MemberPlan) -> Seq<char> {
    let call = match plan.with {
        Some(path) => path@,
        None => "<"@ + plan.ty@ + " as ::multer_derive::FromMultipart>::from_multipart"@,
    };
    "        let "@ + plan.member@ + " = "@ + call + "(multipart, "@ + context_text(plan.match_name@)
        + ")?;\n"@
}

/// The statements of the first `count` members, in declaration order.
pub open spec fn members_text(members: Seq<MemberPlan>, count: int) -> Seq<char>
    decreases count,
{
    if count <= 0 {
        Seq::empty()
    } else {
        members_text(members, count - 1) + member_text(members[count - 1])
    }
}

/// The names of the first `count` members, each after a blank and before a
/// comma, in declaration order.
pub open spec fn names_text(members: Seq<MemberPlan>, count: int) -> Seq<char>
    decreases count,
{
    if count <= 0 {
        Seq::empty()
    } else {
        names_text(members, count - 1) + " "@ + members[count - 1].member@ + ","@
    }
}

/// The lines that open the implementation.
pub open spec fn opening_text(derivation: Derivation) -> Seq<char> {
    "#[automatically_derived]\nimpl"@ + derivation.impl_generics@
        + " ::multer_derive::FromMultipart for "@ + derivation.name@ + derivation.ty_generics@ + " "@
        + derivation.where_clause@
        + " {\n    fn from_multipart(multipart: &::multer_derive::MultipartForm, _ctx: ::multer_derive::FormContext<'_>) -> ::core::result::Result<Self, ::multer_derive::Error> {\n"@
}

/// The source text of the derived implementation: the opening, one statement
/// per member, and the record made of all members.
pub open spec fn emitted(derivation: Derivation) -> Seq<char> {
    opening_text(derivation) + members_text(derivation.members@, derivation.members@.len() as int)
        + "        ::core::result::Result::Ok(Self {"@ + names_text(
        derivation.members@,
        derivation.members@.len() as int,
    ) + " })\n    }\n}\n"@
}

/// Writes the statement of one member.
fn write_member(out: &mut String, plan: &MemberPlan)
    ensures
        final(out)@ == old(out)@ + member_text(*plan),
{
    out.append("        let ");
    out.append(plan.member.as_str());
    out.append(" = ");
    match &plan.with {
        Some(path) => {
            out.append(path.as_str());
        },
        None => {
            out.append("<");
            out.append(plan.ty.as_str());
            out.append(" as ::multer_derive::FromMultipart>::from_multipart");
        },
    }
    out.append("(multipart, ");
    out.append("::multer_derive::FormContext { field_name: ::core::option::Option::Some(\"");
    out.append(plan.match_name.as_str());
    out.append("\") }");
    out.append(")?;\n");
}

impl Derivation {
    /// Writes the derived implementation out as source text.
    pub fn emit(&self) -> (text: String)
        ensures
            text@ == emitted(*self),
    {
        let mut out = String::new();
        out.append("#[automatically_derived]\nimpl");
        out.append(self.impl_generics.as_str());
        out.append(" ::multer_derive::FromMultipart for ");
        out.append(self.name.as_str());
        out.append(self.ty_generics.as_str());
        out.append(" ");
        out.append(self.where_clause.as_str());
        out.append(
            " {\n    fn from_multipart(multipart: &::multer_derive::MultipartForm, _ctx: ::multer_derive::FormContext<'_>) -> ::core::result::Result<Self, ::multer_derive::Error> {\n",
        );
        let mut i: usize = 0;
        while i < self.members.len()
            invariant
                i <= self.members@.len(),
                out@ == opening_text(*self) + members_text(self.members@, i as int),
            decreases self.members@.len() - i,
        {
            write_member(&mut out, &self.members[i]);
            i += 1;
        }
        out.append("        ::core::result::Result::Ok(Self {");
        let ghost before = out@;
        let mut j: usize = 0;
        while j < self.members.len()
            invariant
                j <= self.members@.len(),
                out@ == before + names_text(self.members@, j as int),
            decreases self.members@.len() - j,
        {
            out.append(" ");
            out.append(self.members[j].member.as_str());
            out.append(",");
            j += 1;
        }
        out.append(" })\n    }\n}\n");
        out
    }
}

} // verus!
