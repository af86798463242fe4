//! The date-time format that the repository schema asks for.
use vstd::prelude::*;
use crate::error::GboxError;
use crate::instant::{offset_format_instant, parse_offset_format};

verus! {

/// The `chrono` format of the date-times in a repository: RFC 3339 with
/// seconds and an offset.
pub fn datetime_format() -> (res: &'static str)
    ensures
        res@ == "%Y-%m-%dT%H:%M:%S%#z"@,
{
    "%Y-%m-%dT%H:%M:%S%#z"
}

/// Checks a date-time text of a repository: accepted where `chrono` reads it
/// in the repository format, else an error that holds the text and the format.
pub fn validate_dt(text: &str) -> (res: Result<(), GboxError>)
    ensures
        match res {
            Ok(()) => offset_format_instant(text@, "%Y-%m-%dT%H:%M:%S%#z"@) is Some,
            Err(e) => offset_format_instant(text@, "%Y-%m-%dT%H:%M:%S%#z"@) is None
                && (e matches GboxError::InvalidDateTimeFormat { got, expected }
                && got@ == text@ && expected@ == "%Y-%m-%dT%H:%M:%S%#z"@),
        },
{
    let fmt = datetime_format();
    match parse_offset_format(text, fmt) {
        Some(_) => Ok(()),
        None => Err(GboxError::InvalidDateTimeFormat { got: text.to_owned(), expected: fmt.to_owned() }),
    }
}

} // verus!
