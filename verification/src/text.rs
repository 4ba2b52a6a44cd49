//! Values out of text: the textual form of each scalar type, and the
//! conversion that reads it.
use crate::error::Error;
use vstd::prelude::*;

verus! {

broadcast use vstd::string::group_string_axioms;

/// The characters of a string slice, one by one.
pub fn chars_of(text: &str) -> (chars: Vec<char>)
    ensures
        chars@ == text@,
{
    let mut chars: Vec<char> = Vec::new();
    for c in it: text.chars()
        invariant
            it.seq() == text@,
            chars@ == it.seq().take(it.index() as int),
    {
        chars.push(c);
    }
    chars
}

/// Whether two string slices hold the same text.
pub fn same_text(a: &str, b: &str) -> (same: bool)
    ensures
        same == (a@ == b@),
{
    let left = a.to_owned();
    let right = b.to_owned();
    left == right
}

/// The number that one decimal digit stands for.
pub open spec fn digit_value(c: char) -> Option<int> {
    if '0' as u32 <= c as u32 && c as u32 <= '9' as u32 {
        Some(c as u32 - '0' as u32)
    } else {
        None
    }
}

/// The number that a run of decimal digits denotes, most significant digit
/// first; `None` where a character is no digit. The empty run denotes 0.
pub open spec fn digits_value(digits: Seq<char>) -> Option<int>
    decreases digits.len(),
{
    if digits.len() == 0 {
        Some(0)
    } else {
        match (digits_value(digits.drop_last()), digit_value(digits.last())) {
            (Some(high), Some(low)) => Some(10 * high + low),
            _ => None,
        }
    }
}

/// The integer that a text denotes: an optional sign (`+`, and `-` where
/// `signed`), then one decimal digit or more. Nothing else is an integer:
/// no blanks, no underscores, no sign alone.
pub open spec fn integer_value(text: Seq<char>, signed: bool) -> Option<int> {
    if text.len() == 0 {
        None
    } else if text[0] == '+' {
        if text.len() == 1 {
            None
        } else {
            digits_value(text.skip(1))
        }
    } else if text[0] == '-' && signed {
        if text.len() == 1 {
            None
        } else {
            match digits_value(text.skip(1)) {
                Some(magnitude) => Some(-magnitude),
                None => None,
            }
        }
    } else {
        digits_value(text)
    }
}

/// The integer that a text denotes, where it lies between `min` and `max`.
pub open spec fn integer_within(text: Seq<char>, signed: bool, min: int, max: int) -> Option<int> {
    match integer_value(text, signed) {
        Some(value) => if min <= value <= max {
            Some(value)
        } else {
            None
        },
        None => None,
    }
}

/// The truth value that a text denotes: `true` or `false`, nothing else.
pub open spec fn bool_value(text: Seq<char>) -> Option<bool> {
    if text == "true"@ {
        Some(true)
    } else if text == "false"@ {
        Some(false)
    } else {
        None
    }
}

/// The character that a text denotes: the text is that one character.
pub open spec fn char_value(text: Seq<char>) -> Option<char> {
    if text.len() == 1 {
        Some(text[0])
    } else {
        None
    }
}

/// A run of digits denotes no negative number, and a longer run denotes no
/// smaller one.
pub proof fn lemma_digits_grow(digits: Seq<char>, k: int)
    requires
        0 <= k <= digits.len(),
        digits_value(digits) is Some,
    ensures
        digits_value(digits.take(k)) is Some,
        0 <= digits_value(digits.take(k))->0 <= digits_value(digits)->0,
    decreases digits.len(),
{
    if k == digits.len() {
        assert(digits.take(k) == digits);
        if digits.len() > 0 {
            lemma_digits_grow(digits.drop_last(), digits.len() - 1);
        }
    } else {
        lemma_digits_grow(digits.drop_last(), k);
        assert(digits.drop_last().take(k) == digits.take(k));
    }
}

/// Where a prefix of a text is no run of digits, the text is none.
pub proof fn lemma_digits_prefix(digits: Seq<char>, k: int)
    requires
        0 <= k <= digits.len(),
        digits_value(digits.take(k)) is None,
    ensures
        digits_value(digits) is None,
    decreases digits.len(),
{
    if k == digits.len() {
        assert(digits.take(k) == digits);
    } else {
        assert(digits.drop_last().take(k) == digits.take(k));
        lemma_digits_prefix(digits.drop_last(), k);
    }
}

/// Reads a run of decimal digits that denotes at most `limit`.
fn read_digits(chars: &Vec<char>, from: usize, limit: u128) -> (r: Option<u128>)
    requires
        from <= chars@.len(),
    ensures
        match r {
            Some(value) => digits_value(chars@.skip(from as int)) == Some(value as int) && value
                <= limit,
            None => match digits_value(chars@.skip(from as int)) {
                Some(value) => value > limit,
                None => true,
            },
        },
{
    let ghost digits = chars@.skip(from as int);
    let mut value: u128 = 0;
    let mut i: usize = from;
    while i < chars.len()
        invariant
            from <= i <= chars@.len(),
            digits == chars@.skip(from as int),
            digits_value(digits.take(i - from)) == Some(value as int),
            value <= limit,
        decreases chars@.len() - i,
    {
        let c = chars[i];
        let ghost longer = digits.take(i - from + 1);
        assert(longer.drop_last() == digits.take(i - from));
        let code: u32 = c as u32;
        if code < '0' as u32 || code > '9' as u32 {
            proof {
                lemma_digits_prefix(digits, i - from + 1);
            }
            return None;
        }
        let digit: u128 = (code - '0' as u32) as u128;
        if digit > limit || value > (limit - digit) / 10 {
            proof {
                if digits_value(digits) is Some {
                    lemma_digits_grow(digits, i - from + 1);
                }
            }
            return None;
        }
        value = value * 10 + digit;
        i += 1;
    }
    assert(digits.take(i - from) == digits);
    Some(value)
}

/// Reads an integer between `-below` and `above`: whether it is negative,
/// and its magnitude.
pub(crate) fn read_integer(text: &str, signed: bool, below: u128, above: u128) -> (r: Option<(bool, u128)>)
    ensures
        match r {
            Some((negative, magnitude)) => {
                &&& integer_within(text@, signed, -(below as int), above as int) == Some(
                    if negative {
                        -(magnitude as int)
                    } else {
                        magnitude as int
                    },
                )
                &&& negative ==> signed && 0 < magnitude <= below
                &&& !negative ==> magnitude <= above
            },
            None => integer_within(text@, signed, -(below as int), above as int) is None,
        },
{
    let chars = chars_of(text);
    if chars.len() == 0 {
        return None;
    }
    let first = chars[0];
    if first == '+' {
        if chars.len() == 1 {
            return None;
        }
        match read_digits(&chars, 1, above) {
            Some(magnitude) => {
                proof {
                    lemma_digits_grow(chars@.skip(1), 0);
                }
                Some((false, magnitude))
            },
            None => {
                proof {
                    if digits_value(chars@.skip(1)) is Some {
                        lemma_digits_grow(chars@.skip(1), 0);
                    }
                }
                None
            },
        }
    } else if first == '-' && signed {
        if chars.len() == 1 {
            return None;
        }
        match read_digits(&chars, 1, below) {
            Some(magnitude) => {
                if magnitude == 0 {
                    Some((false, 0))
                } else {
                    Some((true, magnitude))
                }
            },
            None => {
                proof {
                    if digits_value(chars@.skip(1)) is Some {
                        lemma_digits_grow(chars@.skip(1), 0);
                    }
                }
                None
            },
        }
    } else {
        assert(chars@.skip(0) == chars@);
        match read_digits(&chars, 0, above) {
            Some(magnitude) => Some((false, magnitude)),
            None => {
                proof {
                    if digits_value(chars@) is Some {
                        lemma_digits_grow(chars@, 0);
                    }
                }
                None
            },
        }
    }
}

/// The failure to read `text` as a value of the type named `target`.
pub open spec fn is_parse_error(e: Error, text: Seq<char>, target: Seq<char>) -> bool {
    e matches Error::Parse { text: t, target: g } && t@ == text && g@ == target
}

/// What a conversion from text returns, given the value that the text
/// denotes: that value, or the parse error that carries the text and the
/// name of the type.
pub open spec fn reads_as<T>(
    r: Result<T, Error>,
    value: Option<T>,
    text: Seq<char>,
    target: Seq<char>,
) -> bool {
    match r {
        Ok(v) => value == Some(v),
        Err(e) => value is None && is_parse_error(e, text, target),
    }
}

/// The parse error for `text` as a `target`.
pub fn parse_error(text: &str, target: &str) -> (e: Error)
    ensures
        is_parse_error(e, text@, target@),
{
    Error::Parse { text: text.to_owned(), target: target.to_owned() }
}

/// What a parser's answer becomes: the value where it gave one, else the
/// parse error for `text` as a `target`.
pub fn parsed_or_error<T>(parsed: Option<T>, text: &str, target: &str) -> (r: Result<T, Error>)
    ensures
        match parsed {
            Some(value) => r == Ok::<T, Error>(value),
            None => r matches Err(e) && is_parse_error(e, text@, target@),
        },
{
    match parsed {
        Some(value) => Ok(value),
        None => Err(parse_error(text, target)),
    }
}

/// A type with a textual form: a value of it can be read out of a text.
/// Scalars have one; so has every type that a field's name can be a key of.
pub trait FromText: Sized {
    /// Reads the value that `text` denotes.
    fn from_text(text: &str) -> Result<Self, Error>;
}

impl FromText for bool {
    fn from_text(text: &str) -> (r: Result<bool, Error>)
        ensures
            reads_as(r, bool_value(text@), text@, "bool"@),
    {
        if same_text(text, "true") {
            Ok(true)
        } else if same_text(text, "false") {
            Ok(false)
        } else {
            Err(parse_error(text, "bool"))
        }
    }
}

impl FromText for char {
    fn from_text(text: &str) -> (r: Result<char, Error>)
        ensures
            reads_as(r, char_value(text@), text@, "char"@),
    {
        let chars = chars_of(text);
        if chars.len() == 1 {
            Ok(chars[0])
        } else {
            Err(parse_error(text, "char"))
        }
    }
}

impl FromText for String {
    fn from_text(text: &str) -> (r: Result<String, Error>)
        ensures
            r matches Ok(s) && s@ == text@,
    {
        Ok(text.to_owned())
    }
}

} // verus!
