//! Dates and times of day as field values, each in one fixed format.
use crate::error::Error;
use crate::from_multipart::{converts_named, from_named_field, FormContext, FromMultipart};
use crate::from_multipart_field::FromMultipartField;
use crate::multipart_form::{MultipartField, MultipartForm};
use crate::text::{is_parse_error, parsed_or_error};
use time::{Date, PrimitiveDateTime, Time};
use vstd::prelude::*;

verus! {

/// A time of day.
#[verifier::external_type_specification]
#[verifier::external_body]
pub struct ExTime(time::Time);

/// A calendar date.
#[verifier::external_type_specification]
#[verifier::external_body]
pub struct ExDate(time::Date);

/// A date with a time of day, without an offset.
#[verifier::external_type_specification]
#[verifier::external_body]
pub struct ExDateTime(time::PrimitiveDateTime);

/// Whether `time::Time::parse` reads the text as a time of day under the
/// format description.
pub uninterp spec fn denotes_time(text: Seq<char>, format: Seq<char>) -> bool;

/// Whether `time::Date::parse` reads the text as a date under the format
/// description.
pub uninterp spec fn denotes_date(text: Seq<char>, format: Seq<char>) -> bool;

/// Whether `time::PrimitiveDateTime::parse` reads the text as a date with a
/// time under the format description.
pub uninterp spec fn denotes_date_time(text: Seq<char>, format: Seq<char>) -> bool;

/// The format of a time of day.
pub open spec fn time_format() -> Seq<char> {
    "[hour]:[minute]:[second].[subsecond digits:9]"@
}

/// The format of a date.
pub open spec fn date_format() -> Seq<char> {
    "[year]-[month]-[day]"@
}

/// The format of a date with a time.
pub open spec fn date_time_format() -> Seq<char> {
    "[year]-[month]-[day] [hour]:[minute]:[second].[subsecond digits:9]"@
}

/// `time::format_description::parse_borrowed` and `time::Time::parse`: the
/// time of day that the text denotes under the format description, if the
/// description is one and the text denotes a time under it.
#[verifier::external_body]
fn parse_time(text: &str, format: &str) -> (value: Option<Time>)
    ensures
        value is Some == denotes_time(text@, format@),
{
    match time::format_description::parse_borrowed::<1>(format) {
        Ok(description) => match Time::parse(text, &description) {
            Ok(value) => Some(value),
            Err(_) => None,
        },
        Err(_) => None,
    }
}

/// `time::format_description::parse_borrowed` and `time::Date::parse`: the
/// date that the text denotes under the format description, if the
/// description is one and the text denotes a date under it.
#[verifier::external_body]
fn parse_date(text: &str, format: &str) -> (value: Option<Date>)
    ensures
        value is Some == denotes_date(text@, format@),
{
    match time::format_description::parse_borrowed::<1>(format) {
        Ok(description) => match Date::parse(text, &description) {
            Ok(value) => Some(value),
            Err(_) => None,
        },
        Err(_) => None,
    }
}

/// `time::format_description::parse_borrowed` and
/// `time::PrimitiveDateTime::parse`: the date and time that the text denotes
/// under the format description, if the description is one and the text
/// denotes a date and time under it.
#[verifier::external_body]
fn parse_date_time(text: &str, format: &str) -> (value: Option<PrimitiveDateTime>)
    ensures
        value is Some == denotes_date_time(text@, format@),
{
    match time::format_description::parse_borrowed::<1>(format) {
        Ok(description) => match PrimitiveDateTime::parse(text, &description) {
            Ok(value) => Some(value),
            Err(_) => None,
        },
        Err(_) => None,
    }
}

/// `value` is the time of day that `time::Time::parse` reads out of `text`
/// under the format of this module.
pub closed spec fn is_time_of(text: Seq<char>, value: Time) -> bool {
    exists|s: &str, format: &str|
        s@ == text && format@ == time_format() && #[trigger] call_ensures(parse_time, (s, format), Some(value))
}

/// A time of day is written `hour:minute:second.nanoseconds`, the nanoseconds
/// with nine digits.
impl FromMultipartField for Time {
    fn from_field(field: &MultipartField, _form: &MultipartForm) -> (r: Result<Time, Error>)
        ensures
            r is Ok <==> denotes_time(field@.text(), time_format()),
            r matches Ok(value) ==> is_time_of(field@.text(), value),
            r matches Err(e) ==> is_parse_error(e, field@.text(), "Time"@),
    {
        let text = field.text();
        let parsed = parse_time(text.as_str(), "[hour]:[minute]:[second].[subsecond digits:9]");
        parsed_or_error(parsed, text.as_str(), "Time")
    }
}

impl FromMultipart for Time {
    fn from_multipart(multipart: &MultipartForm, ctx: FormContext<'_>) -> (r: Result<Time, Error>)
        ensures
            converts_named(multipart, ctx.name(), r),
    {
        from_named_field(multipart, ctx)
    }
}

/// `value` is the date that `time::Date::parse` reads out of `text`
/// under the format of this module.
pub closed spec fn is_date_of(text: Seq<char>, value: Date) -> bool {
    exists|s: &str, format: &str|
        s@ == text && format@ == date_format() && #[trigger] call_ensures(parse_date, (s, format), Some(value))
}

/// A date is written `year-month-day`.
impl FromMultipartField for Date {
    fn from_field(field: &MultipartField, _form: &MultipartForm) -> (r: Result<Date, Error>)
        ensures
            r is Ok <==> denotes_date(field@.text(), date_format()),
            r matches Ok(value) ==> is_date_of(field@.text(), value),
            r matches Err(e) ==> is_parse_error(e, field@.text(), "Date"@),
    {
        let text = field.text();
        let parsed = parse_date(text.as_str(), "[year]-[month]-[day]");
        parsed_or_error(parsed, text.as_str(), "Date")
    }
}

impl FromMultipart for Date {
    fn from_multipart(multipart: &MultipartForm, ctx: FormContext<'_>) -> (r: Result<Date, Error>)
        ensures
            converts_named(multipart, ctx.name(), r),
    {
        from_named_field(multipart, ctx)
    }
}

/// `value` is the date with a time that `time::PrimitiveDateTime::parse` reads out of `text`
/// under the format of this module.
pub closed spec fn is_date_time_of(text: Seq<char>, value: PrimitiveDateTime) -> bool {
    exists|s: &str, format: &str|
        s@ == text && format@ == date_time_format() && #[trigger] call_ensures(parse_date_time, (s, format), Some(value))
}

/// A date with a time is written as the date, a blank, and the time of day.
impl FromMultipartField for PrimitiveDateTime {
    fn from_field(field: &MultipartField, _form: &MultipartForm) -> (r: Result<PrimitiveDateTime, Error>)
        ensures
            r is Ok <==> denotes_date_time(field@.text(), date_time_format()),
            r matches Ok(value) ==> is_date_time_of(field@.text(), value),
            r matches Err(e) ==> is_parse_error(e, field@.text(), "PrimitiveDateTime"@),
    {
        let text = field.text();
        let parsed = parse_date_time(text.as_str(), "[year]-[month]-[day] [hour]:[minute]:[second].[subsecond digits:9]");
        parsed_or_error(parsed, text.as_str(), "PrimitiveDateTime")
    }
}

impl FromMultipart for PrimitiveDateTime {
    fn from_multipart(multipart: &MultipartForm, ctx: FormContext<'_>) -> (r: Result<PrimitiveDateTime, Error>)
        ensures
            converts_named(multipart, ctx.name(), r),
    {
        from_named_field(multipart, ctx)
    }
}

} // verus!
