//! The textual form of the integer types: decimal digits after an optional
//! sign, and a value that the type can hold.
use crate::error::Error;
use crate::text::{integer_within, is_parse_error, parse_error, read_integer, FromText};
use vstd::prelude::*;

verus! {

impl FromText for u8 {
    fn from_text(text: &str) -> (r: Result<u8, Error>)
        ensures
            match r {
                Ok(value) => integer_within(text@, false, 0, u8::MAX as int) == Some(value as int),
                Err(e) => integer_within(text@, false, 0, u8::MAX as int) is None && is_parse_error(
                    e,
                    text@,
                    "u8"@,
                ),
            },
    {
        match read_integer(text, false, 0, u8::MAX as u128) {
            Some((_, magnitude)) => Ok(magnitude as u8),
            None => Err(parse_error(text, "u8")),
        }
    }
}

impl FromText for u16 {
    fn from_text(text: &str) -> (r: Result<u16, Error>)
        ensures
            match r {
                Ok(value) => integer_within(text@, false, 0, u16::MAX as int) == Some(value as int),
                Err(e) => integer_within(text@, false, 0, u16::MAX as int) is None && is_parse_error(
                    e,
                    text@,
                    "u16"@,
                ),
            },
    {
        match read_integer(text, false, 0, u16::MAX as u128) {
            Some((_, magnitude)) => Ok(magnitude as u16),
            None => Err(parse_error(text, "u16")),
        }
    }
}

impl FromText for u32 {
    fn from_text(text: &str) -> (r: Result<u32, Error>)
        ensures
            match r {
                Ok(value) => integer_within(text@, false, 0, u32::MAX as int) == Some(value as int),
                Err(e) => integer_within(text@, false, 0, u32::MAX as int) is None && is_parse_error(
                    e,
                    text@,
                    "u32"@,
                ),
            },
    {
        match read_integer(text, false, 0, u32::MAX as u128) {
            Some((_, magnitude)) => Ok(magnitude as u32),
            None => Err(parse_error(text, "u32")),
        }
    }
}

impl FromText for u64 {
    fn from_text(text: &str) -> (r: Result<u64, Error>)
        ensures
            match r {
                Ok(value) => integer_within(text@, false, 0, u64::MAX as int) == Some(value as int),
                Err(e) => integer_within(text@, false, 0, u64::MAX as int) is None && is_parse_error(
                    e,
                    text@,
                    "u64"@,
                ),
            },
    {
        match read_integer(text, false, 0, u64::MAX as u128) {
            Some((_, magnitude)) => Ok(magnitude as u64),
            None => Err(parse_error(text, "u64")),
        }
    }
}

impl FromText for u128 {
    fn from_text(text: &str) -> (r: Result<u128, Error>)
        ensures
            match r {
                Ok(value) => integer_within(text@, false, 0, u128::MAX as int) == Some(value as int),
                Err(e) => integer_within(text@, false, 0, u128::MAX as int) is None && is_parse_error(
                    e,
                    text@,
                    "u128"@,
                ),
            },
    {
        match read_integer(text, false, 0, u128::MAX as u128) {
            Some((_, magnitude)) => Ok(magnitude as u128),
            None => Err(parse_error(text, "u128")),
        }
    }
}

impl FromText for usize {
    fn from_text(text: &str) -> (r: Result<usize, Error>)
        ensures
            match r {
                Ok(value) => integer_within(text@, false, 0, usize::MAX as int) == Some(value as int),
                Err(e) => integer_within(text@, false, 0, usize::MAX as int) is None && is_parse_error(
                    e,
                    text@,
                    "usize"@,
                ),
            },
    {
        match read_integer(text, false, 0, usize::MAX as u128) {
            Some((_, magnitude)) => Ok(magnitude as usize),
            None => Err(parse_error(text, "usize")),
        }
    }
}

impl FromText for i8 {
    fn from_text(text: &str) -> (r: Result<i8, Error>)
        ensures
            match r {
                Ok(value) => integer_within(text@, true, i8::MIN as int, i8::MAX as int) == Some(
                    value as int,
                ),
                Err(e) => integer_within(text@, true, i8::MIN as int, i8::MAX as int) is None
                    && is_parse_error(e, text@, "i8"@),
            },
    {
        let above: u128 = i8::MAX as u128;
        match read_integer(text, true, above + 1, above) {
            Some((negative, magnitude)) => {
                if !negative {
                    Ok(magnitude as i8)
                } else if magnitude == above + 1 {
                    Ok(i8::MIN)
                } else {
                    Ok(-(magnitude as i8))
                }
            },
            None => Err(parse_error(text, "i8")),
        }
    }
}

impl FromText for i16 {
    fn from_text(text: &str) -> (r: Result<i16, Error>)
        ensures
            match r {
                Ok(value) => integer_within(text@, true, i16::MIN as int, i16::MAX as int) == Some(
                    value as int,
                ),
                Err(e) => integer_within(text@, true, i16::MIN as int, i16::MAX as int) is None
                    && is_parse_error(e, text@, "i16"@),
            },
    {
        let above: u128 = i16::MAX as u128;
        match read_integer(text, true, above + 1, above) {
            Some((negative, magnitude)) => {
                if !negative {
                    Ok(magnitude as i16)
                } else if magnitude == above + 1 {
                    Ok(i16::MIN)
                } else {
                    Ok(-(magnitude as i16))
                }
            },
            None => Err(parse_error(text, "i16")),
        }
    }
}

impl FromText for i32 {
    fn from_text(text: &str) -> (r: Result<i32, Error>)
        ensures
            match r {
                Ok(value) => integer_within(text@, true, i32::MIN as int, i32::MAX as int) == Some(
                    value as int,
                ),
                Err(e) => integer_within(text@, true, i32::MIN as int, i32::MAX as int) is None
                    && is_parse_error(e, text@, "i32"@),
            },
    {
        let above: u128 = i32::MAX as u128;
        match read_integer(text, true, above + 1, above) {
            Some((negative, magnitude)) => {
                if !negative {
                    Ok(magnitude as i32)
                } else if magnitude == above + 1 {
                    Ok(i32::MIN)
                } else {
                    Ok(-(magnitude as i32))
                }
            },
            None => Err(parse_error(text, "i32")),
        }
    }
}

impl FromText for i64 {
    fn from_text(text: &str) -> (r: Result<i64, Error>)
        ensures
            match r {
                Ok(value) => integer_within(text@, true, i64::MIN as int, i64::MAX as int) == Some(
                    value as int,
                ),
                Err(e) => integer_within(text@, true, i64::MIN as int, i64::MAX as int) is None
                    && is_parse_error(e, text@, "i64"@),
            },
    {
        let above: u128 = i64::MAX as u128;
        match read_integer(text, true, above + 1, above) {
            Some((negative, magnitude)) => {
                if !negative {
                    Ok(magnitude as i64)
                } else if magnitude == above + 1 {
                    Ok(i64::MIN)
                } else {
                    Ok(-(magnitude as i64))
                }
            },
            None => Err(parse_error(text, "i64")),
        }
    }
}

impl FromText for i128 {
    fn from_text(text: &str) -> (r: Result<i128, Error>)
        ensures
            match r {
                Ok(value) => integer_within(text@, true, i128::MIN as int, i128::MAX as int) == Some(
                    value as int,
                ),
                Err(e) => integer_within(text@, true, i128::MIN as int, i128::MAX as int) is None
                    && is_parse_error(e, text@, "i128"@),
            },
    {
        let above: u128 = i128::MAX as u128;
        match read_integer(text, true, above + 1, above) {
            Some((negative, magnitude)) => {
                if !negative {
                    Ok(magnitude as i128)
                } else if magnitude == above + 1 {
                    Ok(i128::MIN)
                } else {
                    Ok(-(magnitude as i128))
                }
            },
            None => Err(parse_error(text, "i128")),
        }
    }
}

impl FromText for isize {
    fn from_text(text: &str) -> (r: Result<isize, Error>)
        ensures
            match r {
                Ok(value) => integer_within(text@, true, isize::MIN as int, isize::MAX as int) == Some(
                    value as int,
                ),
                Err(e) => integer_within(text@, true, isize::MIN as int, isize::MAX as int) is None
                    && is_parse_error(e, text@, "isize"@),
            },
    {
        let above: u128 = isize::MAX as u128;
        match read_integer(text, true, above + 1, above) {
            Some((negative, magnitude)) => {
                if !negative {
                    Ok(magnitude as isize)
                } else if magnitude == above + 1 {
                    Ok(isize::MIN)
                } else {
                    Ok(-(magnitude as isize))
                }
            },
            None => Err(parse_error(text, "isize")),
        }
    }
}

} // verus!
