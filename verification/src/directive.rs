//! The directives of a record member: `rename = "..."` and `with = "..."`,
//! separated by commas, at most one of each, in either order.
//!
//! The grammar is read off the characters between the parentheses of the
//! member's annotation:
//!
//! ```text
//! directives = blanks [ directive blanks { "," blanks directive blanks } [ "," blanks ] ]
//! directive  = key blanks "=" blanks literal
//! key        = "rename" | "with"
//! literal    = a string literal of Rust, cooked or raw
//! ```
//!
//! The value of a directive is the value of its literal, escapes read.
use crate::literal::{literal_at, read_literal};
use crate::text::{chars_of, same_text};
use vstd::prelude::*;
use vstd::string::*;

verus! {

/// The directives of one member, as mathematical values.
pub struct DirectiveSet {
    /// The field name to match instead of the member's own name.
    pub rename: Option<Seq<char>>,
    /// The path of the function that converts the member.
    pub with: Option<Seq<char>>,
}

/// The directives of one member.
#[derive(Debug, Clone)]
pub struct MulterAttribute {
    /// `rename = "other_name"`
    pub rename: Option<String>,
    /// `with = "path::to::function"`
    pub with: Option<String>,
}

impl View for MulterAttribute {
    type V = DirectiveSet;

    open spec fn view(&self) -> DirectiveSet {
        DirectiveSet {
            rename: match self.rename {
                Some(s) => Some(s@),
                None => None,
            },
            with: match self.with {
                Some(s) => Some(s@),
                None => None,
            },
        }
    }
}

/// Why a text is no list of directives. Each position counts characters from
/// the start of the text.
#[derive(Debug, Clone, Copy, PartialEq, Eq, Structural)]
pub enum DirectiveError {
    /// A directive has to start with a key, and none starts here.
    ExpectedKey { at: usize },
    /// The key that starts here is neither `rename` nor `with`.
    UnknownKey { at: usize },
    /// The key that starts here was given before.
    DuplicateKey { at: usize },
    /// `=` has to follow the key, and does not stand here.
    ExpectedEquals { at: usize },
    /// A string literal has to follow `=`, and none starts here: there is no
    /// quote, the literal is not closed, or an escape in it is none of
    /// Rust's.
    ExpectedLiteral { at: usize },
    /// After a directive only `,` may follow, and something else stands here.
    ExpectedComma { at: usize },
}

/// The characters that may stand between the tokens.
pub open spec fn is_blank(c: char) -> bool {
    c == ' ' || c == '\t' || c == '\n' || c == '\r'
}

/// The characters that a key is made of.
pub open spec fn is_key_char(c: char) -> bool {
    ||| 'a' as u32 <= c as u32 <= 'z' as u32
    ||| 'A' as u32 <= c as u32 <= 'Z' as u32
    ||| '0' as u32 <= c as u32 <= '9' as u32
    ||| c == '_'
}

/// How many blanks stand in a row from `at` on.
pub open spec fn blanks(s: Seq<char>, at: int) -> nat
    decreases s.len() - at,
{
    if 0 <= at < s.len() && is_blank(s[at]) {
        1 + blanks(s, at + 1)
    } else {
        0
    }
}

/// How many key characters stand in a row from `at` on.
pub open spec fn key_len(s: Seq<char>, at: int) -> nat
    decreases s.len() - at,
{
    if 0 <= at < s.len() && is_key_char(s[at]) {
        1 + key_len(s, at + 1)
    } else {
        0
    }
}

/// The two keys.
pub open spec fn is_rename(key: Seq<char>) -> bool {
    key == "rename"@
}

pub open spec fn is_with(key: Seq<char>) -> bool {
    key == "with"@
}

/// The directives that the text holds from `at` on, added to those read so
/// far; or the first fault.
#[verifier::opaque]
pub open spec fn directives_from(s: Seq<char>, at: int, so_far: DirectiveSet) -> Result<
    DirectiveSet,
    DirectiveError,
>
    decreases s.len() - at,
{
    let key_at = at + blanks(s, at);
    if at < 0 || key_at >= s.len() {
        Ok(so_far)
    } else if key_len(s, key_at) == 0 {
        Err(DirectiveError::ExpectedKey { at: key_at as usize })
    } else {
        let key_end = key_at + key_len(s, key_at);
        let key = s.subrange(key_at, key_end);
        let equals_at = key_end + blanks(s, key_end);
        let quote_at = equals_at + 1 + blanks(s, equals_at + 1);
        if !is_rename(key) && !is_with(key) {
            Err(DirectiveError::UnknownKey { at: key_at as usize })
        } else if (is_rename(key) && so_far.rename is Some) || (!is_rename(key) && so_far.with is Some) {
            Err(DirectiveError::DuplicateKey { at: key_at as usize })
        } else if equals_at >= s.len() || s[equals_at] != '=' {
            Err(DirectiveError::ExpectedEquals { at: equals_at as usize })
        } else {
            match literal_at(s, quote_at) {
                None => Err(DirectiveError::ExpectedLiteral { at: quote_at as usize }),
                Some((value, after)) => {
                    let next = if is_rename(key) {
                        DirectiveSet { rename: Some(value), with: so_far.with }
                    } else {
                        DirectiveSet { rename: so_far.rename, with: Some(value) }
                    };
                    let comma_at = after + blanks(s, after);
                    if after <= at {
                        Err(DirectiveError::ExpectedLiteral { at: quote_at as usize })
                    } else if comma_at >= s.len() {
                        Ok(next)
                    } else if s[comma_at] != ',' {
                        Err(DirectiveError::ExpectedComma { at: comma_at as usize })
                    } else {
                        directives_from(s, comma_at + 1, next)
                    }
                },
            }
        }
    }
}

/// The directives that a text holds, or its first fault.
pub open spec fn directives(s: Seq<char>) -> Result<DirectiveSet, DirectiveError> {
    directives_from(s, 0, DirectiveSet { rename: None, with: None })
}

fn is_blank_char(c: char) -> (r: bool)
    ensures
        r == is_blank(c),
{
    c == ' ' || c == '\t' || c == '\n' || c == '\r'
}

fn is_key_character(c: char) -> (r: bool)
    ensures
        r == is_key_char(c),
{
    let code: u32 = c as u32;
    (code >= 'a' as u32 && code <= 'z' as u32) || (code >= 'A' as u32 && code <= 'Z' as u32) || (code
        >= '0' as u32 && code <= '9' as u32) || c == '_'
}

/// The position after the blanks that start at `at`.
fn skip_blanks(chars: &Vec<char>, at: usize) -> (end: usize)
    requires
        at <= chars@.len(),
    ensures
        end == at + blanks(chars@, at as int),
        end <= chars@.len(),
{
    let mut end: usize = at;
    while end < chars.len() && is_blank_char(chars[end])
        invariant
            at <= end <= chars@.len(),
            at + blanks(chars@, at as int) == end + blanks(chars@, end as int),
        decreases chars@.len() - end,
    {
        end += 1;
    }
    end
}

/// The position after the key that starts at `at`.
fn skip_key(chars: &Vec<char>, at: usize) -> (end: usize)
    requires
        at <= chars@.len(),
    ensures
        end == at + key_len(chars@, at as int),
        end <= chars@.len(),
{
    let mut end: usize = at;
    while end < chars.len() && is_key_character(chars[end])
        invariant
            at <= end <= chars@.len(),
            at + key_len(chars@, at as int) == end + key_len(chars@, end as int),
        decreases chars@.len() - end,
    {
        end += 1;
    }
    end
}

impl MulterAttribute {
    /// Reads the directives of one annotation.
    ///
    /// A value is written as a string literal of Rust, cooked or raw, and is
    /// the literal's value, escapes read. A key given twice is a fault.
    pub fn parse(input: &str) -> (r: Result<MulterAttribute, DirectiveError>)
        ensures
            match r {
                Ok(attribute) => directives(input@) == Ok::<DirectiveSet, DirectiveError>(attribute@),
                Err(e) => directives(input@) == Err::<DirectiveSet, DirectiveError>(e),
            },
    {
        let chars = chars_of(input);
        let mut attribute = MulterAttribute { rename: None, with: None };
        let mut at: usize = 0;
        loop
            invariant
                chars@ == input@,
                at <= chars@.len(),
                directives(input@) == directives_from(chars@, at as int, attribute@),
            decreases chars@.len() - at,
        {
            proof {
                reveal_with_fuel(directives_from, 1);
            }
            let key_at = skip_blanks(&chars, at);
            if key_at >= chars.len() {
                return Ok(attribute);
            }
            let key_end = skip_key(&chars, key_at);
            if key_end == key_at {
                return Err(DirectiveError::ExpectedKey { at: key_at });
            }
            let key = input.substring_char(key_at, key_end);
            let renames = same_text(key, "rename");
            let withs = same_text(key, "with");
            let equals_at = skip_blanks(&chars, key_end);
            if !renames && !withs {
                return Err(DirectiveError::UnknownKey { at: key_at });
            }
            if (renames && attribute.rename.is_some()) || (!renames && attribute.with.is_some()) {
                return Err(DirectiveError::DuplicateKey { at: key_at });
            }
            if equals_at >= chars.len() || chars[equals_at] != '=' {
                return Err(DirectiveError::ExpectedEquals { at: equals_at });
            }
            let quote_at = skip_blanks(&chars, equals_at + 1);
            let (value, after) = match read_literal(&chars, quote_at) {
                Some(read) => read,
                None => {
                    return Err(DirectiveError::ExpectedLiteral { at: quote_at });
                },
            };
            if renames {
                attribute.rename = Some(value);
            } else {
                attribute.with = Some(value);
            }
            let comma_at = skip_blanks(&chars, after);
            if comma_at >= chars.len() {
                return Ok(attribute);
            }
            if chars[comma_at] != ',' {
                return Err(DirectiveError::ExpectedComma { at: comma_at });
            }
            at = comma_at + 1;
        }
    }
}

} // verus!
