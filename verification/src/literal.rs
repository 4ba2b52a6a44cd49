//! String literals as Rust writes them, read off characters.
//!
//! A literal is either cooked, `"..."`, or raw, `r"..."` with any number of
//! `#` around the quotes. In a cooked literal `\` starts an escape: `\n`,
//! `\r`, `\t`, `\\`, `\0`, `\'`, `\"`, `\x` with two hex digits up to `7F`,
//! `\u{..}` with one to six hex digits, and `\` before a line break, which
//! takes the line break and the blanks after it away. A raw literal holds
//! its characters as they are, up to the first `"` that its `#` follow.
//! A suffix may follow a literal at once, as in `"text"suffix`: a letter or
//! `_`, then letters, digits and `_`. It belongs to the literal and does not
//! change its value.
use crate::directive::{blanks, is_key_char, key_len};
use vstd::prelude::*;

verus! {

/// `String::push`: appends the character to the end of the string.
#[verifier::external_body]
fn push_char(text: &mut String, c: char)
    ensures
        final(text)@ == old(text)@.push(c),
{
    text.push(c)
}

/// `char::from_u32`: the character of a code point, where the number is one:
/// up to `D7FF`, or from `E000` to `10FFFF`.
#[verifier::external_body]
fn scalar_char(code: u32) -> (c: Option<char>)
    ensures
        match c {
            Some(c) => is_scalar(code as int) && c == char_of(code as int),
            None => !is_scalar(code as int),
        },
{
    char::from_u32(code)
}

/// Whether a number is the code point of a character.
pub open spec fn is_scalar(code: int) -> bool {
    0 <= code <= 0xD7FF || 0xE000 <= code <= 0x10FFFF
}

/// The character of a code point.
pub open spec fn char_of(code: int) -> char {
    code as char
}

/// The number that a hex digit stands for.
pub open spec fn hex_value(c: char) -> Option<int> {
    if '0' as u32 <= c as u32 <= '9' as u32 {
        Some(c as u32 - '0' as u32)
    } else if 'a' as u32 <= c as u32 <= 'f' as u32 {
        Some(10 + c as u32 - 'a' as u32)
    } else if 'A' as u32 <= c as u32 <= 'F' as u32 {
        Some(10 + c as u32 - 'A' as u32)
    } else {
        None
    }
}

/// How many `#` stand in a row from `at` on.
pub open spec fn hashes(s: Seq<char>, at: int) -> nat
    decreases s.len() - at,
{
    if 0 <= at < s.len() && s[at] == '#' {
        1 + hashes(s, at + 1)
    } else {
        0
    }
}

/// The code point that the digits of a `\u{..}` denote from `at` on, after
/// `digits` digits of value `value`, and the position after the `}`: hex
/// digits, at most six, with `_` allowed after the first.
pub open spec fn unicode_from(s: Seq<char>, at: int, value: int, digits: nat) -> Option<(int, int)>
    decreases s.len() - at,
{
    if at < 0 || at >= s.len() {
        None
    } else if hex_value(s[at]) is Some {
        if digits >= 6 {
            None
        } else {
            unicode_from(s, at + 1, value * 16 + hex_value(s[at])->0, digits + 1)
        }
    } else if s[at] == '_' && digits > 0 {
        unicode_from(s, at + 1, value, digits)
    } else if s[at] == '}' && digits > 0 {
        Some((value, at + 1))
    } else {
        None
    }
}

/// The escape whose letter stands at `at`, after the `\`: the character it
/// stands for, or none for a line continuation, and how many characters it
/// takes.
pub open spec fn escape_at(s: Seq<char>, at: int) -> Option<(Option<char>, nat)> {
    if at < 0 || at >= s.len() {
        None
    } else if s[at] == 'n' {
        Some((Some('\n'), 1))
    } else if s[at] == 'r' {
        Some((Some('\r'), 1))
    } else if s[at] == 't' {
        Some((Some('\t'), 1))
    } else if s[at] == '\\' {
        Some((Some('\\'), 1))
    } else if s[at] == '0' {
        Some((Some('\0'), 1))
    } else if s[at] == '\'' {
        Some((Some('\''), 1))
    } else if s[at] == '"' {
        Some((Some('"'), 1))
    } else if s[at] == '\n' || s[at] == '\r' {
        Some((None, 1 + blanks(s, at + 1)))
    } else if s[at] == 'x' {
        if at + 2 < s.len() && hex_value(s[at + 1]) is Some && hex_value(s[at + 2]) is Some && 16 * hex_value(
            s[at + 1],
        )->0 + hex_value(s[at + 2])->0 <= 0x7F {
            Some((Some(char_of(16 * hex_value(s[at + 1])->0 + hex_value(s[at + 2])->0)), 3))
        } else {
            None
        }
    } else if s[at] == 'u' {
        if at + 1 < s.len() && s[at + 1] == '{' {
            match unicode_from(s, at + 2, 0, 0) {
                Some((code, end)) => if is_scalar(code) && end > at {
                    Some((Some(char_of(code)), (end - at) as nat))
                } else {
                    None
                },
                None => None,
            }
        } else {
            None
        }
    } else {
        None
    }
}

/// The value of the cooked literal whose content goes on at `at`, added to
/// what was read so far, and the position of the `"` that closes it. A
/// carriage return has to come with its line feed and reads as a line feed.
pub open spec fn cooked_from(s: Seq<char>, at: int, so_far: Seq<char>) -> Option<(Seq<char>, int)>
    decreases s.len() - at,
{
    if at < 0 || at >= s.len() {
        None
    } else if s[at] == '"' {
        Some((so_far, at))
    } else if s[at] == '\\' {
        match escape_at(s, at + 1) {
            Some((made, taken)) => if at + 1 + taken <= s.len() {
                cooked_from(
                    s,
                    at + 1 + taken,
                    match made {
                        Some(c) => so_far.push(c),
                        None => so_far,
                    },
                )
            } else {
                None
            },
            None => None,
        }
    } else if s[at] == '\r' {
        if at + 1 < s.len() && s[at + 1] == '\n' {
            cooked_from(s, at + 2, so_far.push('\n'))
        } else {
            None
        }
    } else {
        cooked_from(s, at + 1, so_far.push(s[at]))
    }
}

/// The position of the first `"` at or after `at` that at least `pounds`
/// `#` follow.
pub open spec fn raw_close(s: Seq<char>, at: int, pounds: nat) -> Option<int>
    decreases s.len() - at,
{
    if at < 0 || at >= s.len() {
        None
    } else if s[at] == '"' && hashes(s, at + 1) >= pounds {
        Some(at)
    } else {
        raw_close(s, at + 1, pounds)
    }
}

/// How many characters the suffix takes that starts at `at`, if one starts
/// there.
pub open spec fn suffix_len(s: Seq<char>, at: int) -> nat {
    if 0 <= at < s.len() && is_key_char(s[at]) && !('0' as u32 <= s[at] as u32 <= '9' as u32) {
        key_len(s, at)
    } else {
        0
    }
}

/// The string literal that starts at `at`: its value, and the position
/// after it and its suffix.
pub open spec fn literal_at(s: Seq<char>, at: int) -> Option<(Seq<char>, int)> {
    if at < 0 || at >= s.len() {
        None
    } else if s[at] == '"' {
        match cooked_from(s, at + 1, Seq::empty()) {
            Some((value, close)) => Some((value, close + 1 + suffix_len(s, close + 1))),
            None => None,
        }
    } else if s[at] == 'r' {
        let pounds = hashes(s, at + 1);
        let open = at + 1 + pounds;
        if open < s.len() && s[open] == '"' {
            match raw_close(s, open + 1, pounds) {
                Some(close) => Some(
                    (s.subrange(open + 1, close), close + 1 + pounds + suffix_len(s, close + 1 + pounds)),
                ),
                None => None,
            }
        } else {
            None
        }
    } else {
        None
    }
}

fn hex_digit(c: char) -> (r: Option<u32>)
    ensures
        match r {
            Some(value) => hex_value(c) == Some(value as int) && value < 16,
            None => hex_value(c) is None,
        },
{
    let code: u32 = c as u32;
    if code >= '0' as u32 && code <= '9' as u32 {
        Some(code - '0' as u32)
    } else if code >= 'a' as u32 && code <= 'f' as u32 {
        Some(10 + (code - 'a' as u32))
    } else if code >= 'A' as u32 && code <= 'F' as u32 {
        Some(10 + (code - 'A' as u32))
    } else {
        None
    }
}

/// The position after the `#` that start at `at`.
fn skip_hashes(chars: &Vec<char>, at: usize) -> (end: usize)
    requires
        at <= chars@.len(),
    ensures
        end == at + hashes(chars@, at as int),
        end <= chars@.len(),
{
    let mut end: usize = at;
    while end < chars.len() && chars[end] == '#'
        invariant
            at <= end <= chars@.len(),
            at + hashes(chars@, at as int) == end + hashes(chars@, end as int),
        decreases chars@.len() - end,
    {
        end += 1;
    }
    end
}

/// The position after the blanks that start at `at`.
fn skip_blank_run(chars: &Vec<char>, at: usize) -> (end: usize)
    requires
        at <= chars@.len(),
    ensures
        end == at + blanks(chars@, at as int),
        end <= chars@.len(),
{
    let mut end: usize = at;
    while end < chars.len() && (chars[end] == ' ' || chars[end] == '\t' || chars[end] == '\n' || chars[end]
        == '\r')
        invariant
            at <= end <= chars@.len(),
            at + blanks(chars@, at as int) == end + blanks(chars@, end as int),
        decreases chars@.len() - end,
    {
        end += 1;
    }
    end
}

/// The position after the suffix that starts at `at`, if one starts there.
fn skip_suffix(chars: &Vec<char>, at: usize) -> (end: usize)
    requires
        at <= chars@.len(),
    ensures
        end == at + suffix_len(chars@, at as int),
        end <= chars@.len(),
{
    if at >= chars.len() {
        return at;
    }
    let code: u32 = chars[at] as u32;
    let starts = (code >= 'a' as u32 && code <= 'z' as u32) || (code >= 'A' as u32 && code <= 'Z' as u32)
        || chars[at] == '_';
    if !starts {
        return at;
    }
    let mut end: usize = at;
    while end < chars.len() && is_suffix_char(chars[end])
        invariant
            at <= end <= chars@.len(),
            at + key_len(chars@, at as int) == end + key_len(chars@, end as int),
        decreases chars@.len() - end,
    {
        end += 1;
    }
    end
}

fn is_suffix_char(c: char) -> (r: bool)
    ensures
        r == is_key_char(c),
{
    let code: u32 = c as u32;
    (code >= 'a' as u32 && code <= 'z' as u32) || (code >= 'A' as u32 && code <= 'Z' as u32) || (code
        >= '0' as u32 && code <= '9' as u32) || c == '_'
}

/// Reads the digits of a `\u{..}` from `at` on.
fn read_unicode(chars: &Vec<char>, at: usize) -> (r: Option<(u32, usize)>)
    requires
        at <= chars@.len(),
    ensures
        match r {
            Some((code, end)) => unicode_from(chars@, at as int, 0, 0) == Some((code as int, end as int))
                && at < end <= chars@.len(),
            None => unicode_from(chars@, at as int, 0, 0) is None,
        },
{
    let mut code: u32 = 0;
    let mut digits: u8 = 0;
    let mut i: usize = at;
    while i < chars.len()
        invariant
            at <= i <= chars@.len(),
            digits <= 6,
            code < 0x1000000,
            digits <= 5 ==> code < 0x100000,
            digits <= 4 ==> code < 0x10000,
            digits <= 3 ==> code < 0x1000,
            digits <= 2 ==> code < 0x100,
            digits <= 1 ==> code < 0x10,
            digits == 0 ==> code == 0,
            unicode_from(chars@, at as int, 0, 0) == unicode_from(chars@, i as int, code as int, digits as nat),
        decreases chars@.len() - i,
    {
        let c = chars[i];
        match hex_digit(c) {
            Some(value) => {
                if digits >= 6 {
                    return None;
                }
                code = code * 16 + value;
                digits += 1;
            },
            None => {
                if c == '_' && digits > 0 {
                } else if c == '}' && digits > 0 {
                    return Some((code, i + 1));
                } else {
                    return None;
                }
            },
        }
        i += 1;
    }
    None
}

/// Reads the escape whose letter stands at `at`.
fn read_escape(chars: &Vec<char>, at: usize) -> (r: Option<(Option<char>, usize)>)
    requires
        at <= chars@.len(),
    ensures
        match r {
            Some((c, end)) => escape_at(chars@, at as int) == Some((c, (end - at) as nat)) && at < end
                <= chars@.len(),
            None => escape_at(chars@, at as int) is None,
        },
{
    if at >= chars.len() {
        return None;
    }
    let c = chars[at];
    if c == 'n' {
        Some((Some('\n'), at + 1))
    } else if c == 'r' {
        Some((Some('\r'), at + 1))
    } else if c == 't' {
        Some((Some('\t'), at + 1))
    } else if c == '\\' {
        Some((Some('\\'), at + 1))
    } else if c == '0' {
        Some((Some('\0'), at + 1))
    } else if c == '\'' {
        Some((Some('\''), at + 1))
    } else if c == '"' {
        Some((Some('"'), at + 1))
    } else if c == '\n' || c == '\r' {
        let end = skip_blank_run(chars, at + 1);
        Some((None, end))
    } else if c == 'x' {
        if chars.len() - at <= 2 {
            return None;
        }
        match (hex_digit(chars[at + 1]), hex_digit(chars[at + 2])) {
            (Some(high), Some(low)) => {
                let code: u32 = 16 * high + low;
                if code > 0x7F {
                    return None;
                }
                match scalar_char(code) {
                    Some(made) => Some((Some(made), at + 3)),
                    None => None,
                }
            },
            _ => None,
        }
    } else if c == 'u' {
        if chars.len() - at <= 1 || chars[at + 1] != '{' {
            return None;
        }
        match read_unicode(chars, at + 2) {
            Some((code, end)) => match scalar_char(code) {
                Some(made) => Some((Some(made), end)),
                None => None,
            },
            None => None,
        }
    } else {
        None
    }
}

/// Reads the content of a cooked literal from `at` on.
fn read_cooked(chars: &Vec<char>, at: usize) -> (r: Option<(String, usize)>)
    requires
        at <= chars@.len(),
    ensures
        match r {
            Some((value, close)) => cooked_from(chars@, at as int, Seq::empty()) == Some((value@, close as int))
                && at <= close < chars@.len(),
            None => cooked_from(chars@, at as int, Seq::empty()) is None,
        },
{
    let mut value = String::new();
    let mut i: usize = at;
    while i < chars.len()
        invariant
            at <= i <= chars@.len(),
            cooked_from(chars@, at as int, Seq::empty()) == cooked_from(chars@, i as int, value@),
        decreases chars@.len() - i,
    {
        let c = chars[i];
        if c == '"' {
            return Some((value, i));
        } else if c == '\\' {
            match read_escape(chars, i + 1) {
                Some((made, end)) => {
                    match made {
                        Some(made) => {
                            push_char(&mut value, made);
                        },
                        None => {},
                    }
                    i = end;
                },
                None => {
                    return None;
                },
            }
        } else if c == '\r' {
            if chars.len() - i <= 1 || chars[i + 1] != '\n' {
                return None;
            }
            push_char(&mut value, '\n');
            i += 2;
        } else {
            push_char(&mut value, c);
            i += 1;
        }
    }
    None
}

/// Finds the `"` that closes a raw literal with `pounds` `#`.
fn find_raw_close(chars: &Vec<char>, at: usize, pounds: usize) -> (r: Option<usize>)
    requires
        at <= chars@.len(),
    ensures
        match r {
            Some(close) => raw_close(chars@, at as int, pounds as nat) == Some(close as int) && at <= close
                < chars@.len() && close + 1 + pounds <= chars@.len(),
            None => raw_close(chars@, at as int, pounds as nat) is None,
        },
{
    let mut i: usize = at;
    while i < chars.len()
        invariant
            at <= i <= chars@.len(),
            raw_close(chars@, at as int, pounds as nat) == raw_close(chars@, i as int, pounds as nat),
        decreases chars@.len() - i,
    {
        if chars[i] == '"' {
            let end = skip_hashes(chars, i + 1);
            if end - (i + 1) >= pounds {
                return Some(i);
            }
        }
        i += 1;
    }
    None
}

/// Reads the string literal that starts at `at`: its value, and the position
/// after it.
pub fn read_literal(chars: &Vec<char>, at: usize) -> (r: Option<(String, usize)>)
    requires
        at <= chars@.len(),
    ensures
        match r {
            Some((value, after)) => literal_at(chars@, at as int) == Some((value@, after as int)) && at < after
                <= chars@.len(),
            None => literal_at(chars@, at as int) is None,
        },
{
    if at >= chars.len() {
        return None;
    }
    if chars[at] == '"' {
        match read_cooked(chars, at + 1) {
            Some((value, close)) => Some((value, skip_suffix(chars, close + 1))),
            None => None,
        }
    } else if chars[at] == 'r' {
        let open = skip_hashes(chars, at + 1);
        let pounds = open - (at + 1);
        if open >= chars.len() || chars[open] != '"' {
            return None;
        }
        match find_raw_close(chars, open + 1, pounds) {
            Some(close) => {
                let mut value = String::new();
                let mut i: usize = open + 1;
                while i < close
                    invariant
                        open + 1 <= i <= close < chars@.len(),
                        value@ == chars@.subrange(open + 1, i as int),
                    decreases close - i,
                {
                    push_char(&mut value, chars[i]);
                    assert(chars@.subrange(open + 1, i + 1) == chars@.subrange(open + 1, i as int).push(
                        chars@[i as int],
                    ));
                    i += 1;
                }
                Some((value, skip_suffix(chars, close + 1 + pounds)))
            },
            None => None,
        }
    } else {
        None
    }
}

} // verus!
