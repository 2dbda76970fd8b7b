//! Validating a number given as text, with an error type that tells the
//! ways in which that can fail apart.

use crate::decimal::{decimal_int, decimal_string};
use std::num::ParseIntError;
use vstd::prelude::*;
use vstd::std_specs::convert::FromSpecImpl;
use vstd::string::{to_string_from_display_ensures, StringExecFns};

verus! {

/// `std::io::Error`, carried through without looking inside.
#[verifier::external_type_specification]
#[verifier::external_body]
pub struct ExIoError(std::io::Error);

/// `std::num::ParseIntError`, carried through without looking inside.
#[verifier::external_type_specification]
#[verifier::external_body]
pub struct ExParseIntError(ParseIntError);

/// The ways in which processing data can fail.
#[derive(Debug)]
pub enum DataProcessingError {
    /// Reading or writing failed.
    Io(std::io::Error),
    /// The text is not a number.
    Parse { source: ParseIntError },
    /// The data is there but is not acceptable; the text says why.
    InvalidData(String),
    /// The data conflicts with the configuration; `details` says how.
    ConfigError { details: String },
}

impl From<std::io::Error> for DataProcessingError {
    fn from(source: std::io::Error) -> (e: DataProcessingError) {
        DataProcessingError::Io(source)
    }
}

impl FromSpecImpl<std::io::Error> for DataProcessingError {
    open spec fn obeys_from_spec() -> bool {
        true
    }

    open spec fn from_spec(source: std::io::Error) -> DataProcessingError {
        DataProcessingError::Io(source)
    }
}

impl From<ParseIntError> for DataProcessingError {
    fn from(source: ParseIntError) -> (e: DataProcessingError) {
        DataProcessingError::Parse { source }
    }
}

impl FromSpecImpl<ParseIntError> for DataProcessingError {
    open spec fn obeys_from_spec() -> bool {
        true
    }

    open spec fn from_spec(source: ParseIntError) -> DataProcessingError {
        DataProcessingError::Parse { source }
    }
}

/// The largest number that is accepted.
pub const MAX_VALUE: i32 = 1000;

/// Whether `c` is one of the ten decimal digits.
pub open spec fn is_digit(c: char) -> bool {
    '0' <= c <= '9'
}

/// The number that a run of decimal digits stands for.
pub open spec fn digits_value(s: Seq<char>) -> int
    decreases s.len(),
{
    if s.len() == 0 {
        0
    } else {
        digits_value(s.drop_last()) * 10 + (s.last() as int - '0' as int)
    }
}

/// Whether `s` is one decimal digit or more, and nothing else.
pub open spec fn all_digits(s: Seq<char>) -> bool {
    s.len() > 0 && forall|i: int| 0 <= i < s.len() ==> is_digit(#[trigger] s[i])
}

/// The number that `s` denotes as an `i32`, if it denotes one: an optional
/// `+` or `-`, then one decimal digit or more and nothing else, with a value
/// that an `i32` can hold.
pub open spec fn i32_literal(s: Seq<char>) -> Option<int> {
    let signed = s.len() > 0 && (s[0] == '+' || s[0] == '-');
    let digits = if signed {
        s.skip(1)
    } else {
        s
    };
    let value = if signed && s[0] == '-' {
        -digits_value(digits)
    } else {
        digits_value(digits)
    };
    if all_digits(digits) && i32::MIN <= value <= i32::MAX {
        Some(value)
    } else {
        None
    }
}

/// Calls `str::parse::<i32>`.
///
/// Trusted: the standard library accepts an optional `+` or `-` followed by
/// decimal digits only, at least one, whose value fits in an `i32`, and
/// returns that value; on every other text it returns an error.
#[verifier::external_body]
fn parse_i32(text: &str) -> (parsed: Result<i32, ParseIntError>)
    ensures
        match parsed {
            Ok(number) => i32_literal(text@) == Some(number as int),
            Err(_) => i32_literal(text@) is None,
        },
{
    text.parse::<i32>()
}

/// The text that explains why the negative number `number` is refused.
pub open spec fn negative_message(number: int) -> Seq<char> {
    "Negative numbers ("@ + decimal_int(number) + ") are not allowed"@
}

/// The text that explains why a number above [`MAX_VALUE`] is refused.
pub open spec fn threshold_message() -> Seq<char> {
    "Value exceeds configured maximum threshold"@
}

/// What checking `number` gives: twice the number if it lies between zero
/// and [`MAX_VALUE`], and otherwise the error that says on which side it
/// falls.
pub open spec fn check_outcome(number: i32, outcome: Result<i32, DataProcessingError>) -> bool {
    if number < 0 {
        outcome matches Err(DataProcessingError::InvalidData(text)) && text@ == negative_message(
            number as int,
        )
    } else if number > MAX_VALUE {
        outcome matches Err(DataProcessingError::ConfigError { details }) && details@
            == threshold_message()
    } else {
        outcome == Ok::<i32, DataProcessingError>((2 * number) as i32)
    }
}

/// Checks a number and doubles it.
///
/// A negative number is refused as invalid data, with a text that names it;
/// a number above [`MAX_VALUE`] is refused as a configuration error.
pub fn check_number(number: i32) -> (outcome: Result<i32, DataProcessingError>)
    ensures
        check_outcome(number, outcome),
{
    if number < 0 {
        let mut text = String::from_str("Negative numbers (");
        text.append(decimal_string(number).as_str());
        text.append(") are not allowed");
        return Err(DataProcessingError::InvalidData(text));
    }
    if number > MAX_VALUE {
        return Err(
            DataProcessingError::ConfigError {
                details: String::from_str("Value exceeds configured maximum threshold"),
            },
        );
    }
    Ok(number * 2)
}

/// Reads `input_str` as a number, checks it and doubles it.
///
/// Text that is no `i32` gives [`DataProcessingError::Parse`]; a number is
/// handed to [`check_number`].
pub fn process_data(input_str: &str) -> (outcome: Result<i32, DataProcessingError>)
    ensures
        match i32_literal(input_str@) {
            Some(number) => check_outcome(number as i32, outcome),
            None => outcome matches Err(DataProcessingError::Parse { .. }),
        },
{
    let number: i32 = match parse_i32(input_str) {
        Ok(number) => number,
        Err(source) => {
            return Err(DataProcessingError::from(source));
        },
    };
    check_number(number)
}

impl DataProcessingError {
    /// The text that describes the error to a reader.
    pub open spec fn message_prefix(self) -> Seq<char> {
        match self {
            DataProcessingError::Io(_) => "An I/O error occurred while processing data"@,
            DataProcessingError::Parse { .. } => "Failed to parse number: "@,
            DataProcessingError::InvalidData(_) => "Invalid data found: "@,
            DataProcessingError::ConfigError { .. } => "Configuration error: "@,
        }
    }

    /// The text that describes the error to a reader: a fixed opening for
    /// each kind of error, followed by the text that the error carries, or,
    /// for [`DataProcessingError::Parse`], by what `to_string` makes of the
    /// cause.
    pub fn message(&self) -> (text: String)
        ensures
            match *self {
                DataProcessingError::Io(_) => text@ == self.message_prefix(),
                DataProcessingError::Parse { source } => exists|cause: String|
                    to_string_from_display_ensures::<ParseIntError>(&source, cause) && text@
                        == self.message_prefix() + cause@,
                DataProcessingError::InvalidData(reason) => text@ == self.message_prefix()
                    + reason@,
                DataProcessingError::ConfigError { details } => text@ == self.message_prefix()
                    + details@,
            },
    {
        match self {
            DataProcessingError::Io(_) => String::from_str(
                "An I/O error occurred while processing data",
            ),
            DataProcessingError::Parse { source } => {
                let cause = source.to_string();
                String::from_str("Failed to parse number: ").concat(cause.as_str())
            },
            DataProcessingError::InvalidData(reason) => String::from_str(
                "Invalid data found: ",
            ).concat(reason.as_str()),
            DataProcessingError::ConfigError { details } => String::from_str(
                "Configuration error: ",
            ).concat(details.as_str()),
        }
    }
}

} // verus!
