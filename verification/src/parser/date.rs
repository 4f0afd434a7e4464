//! Calendar dates as tag writers spell them.

use chrono::format::ParseErrorKind;
use vstd::prelude::*;
use vstd::string::StringExecFns;

use crate::number::widen;

verus! {

/// Why a text is no date in a given format.
#[derive(Debug, Clone, Copy, PartialEq, Eq, Structural, Hash)]
pub enum DateError {
    /// A field is beyond its range, or the day does not exist.
    OutOfRange,
    /// The fields contradict each other.
    Impossible,
    /// The fields do not make up a date.
    NotEnough,
    /// A character does not fit the format.
    Invalid,
    /// The text ends before the format does.
    TooShort,
    /// The text goes on after the format has ended.
    TooLong,
    /// The format itself is not understood.
    BadFormat,
    /// A reason this library has no name for.
    Other,
}

/// The year of the calendar date that `text` spells in the `strftime` format
/// `format`, or the reason why it spells none there.
pub uninterp spec fn calendar_year(text: Seq<char>, format: Seq<char>) -> Result<int, DateError>;

/// Calls `chrono::NaiveDate::parse_from_str` on `text` and `format`, and
/// `chrono::Datelike::year` on the date it returns. Nothing is proved of
/// either: the contract gives the outcome the name `calendar_year`, which
/// rests on the parser reading nothing but its two arguments. An error comes
/// back as the kind that `chrono::format::ParseError::kind` reports, and as
/// `Other` where that is none of the seven kinds listed here.
#[verifier::external_body]
pub(crate) fn parse_calendar_year(text: &str, format: &str) -> (result: Result<i32, DateError>)
    ensures
        widen(result) == calendar_year(text@, format@),
{
    match chrono::NaiveDate::parse_from_str(text, format) {
        Ok(date) => Ok(chrono::Datelike::year(&date)),
        Err(error) => Err(match error.kind() {
            ParseErrorKind::OutOfRange => DateError::OutOfRange,
            ParseErrorKind::Impossible => DateError::Impossible,
            ParseErrorKind::NotEnough => DateError::NotEnough,
            ParseErrorKind::Invalid => DateError::Invalid,
            ParseErrorKind::TooShort => DateError::TooShort,
            ParseErrorKind::TooLong => DateError::TooLong,
            ParseErrorKind::BadFormat => DateError::BadFormat,
            _ => DateError::Other,
        }),
    }
}

/// The format of a full date: year, month and day, with hyphens between them.
pub open spec fn full_date_format() -> Seq<char> {
    "%Y-%m-%d"@
}

/// What turns a year into the full date of its first day.
pub open spec fn first_day() -> Seq<char> {
    "-01-01"@
}

/// The year that a date tag gives. A tag holds a full date or a year alone,
/// and a year alone stands for its first day: where `text` is no full date,
/// the outcome is that of `text` followed by `-01-01`.
pub open spec fn date_year_spec(text: Seq<char>) -> Result<int, DateError> {
    match calendar_year(text, full_date_format()) {
        Ok(year) => Ok(year),
        Err(_) => calendar_year(text + first_day(), full_date_format()),
    }
}

/// The year that the date tag `text` gives.
pub fn date_year(text: &str) -> (result: Result<i32, DateError>)
    ensures
        widen(result) == date_year_spec(text@),
{
    match parse_calendar_year(text, "%Y-%m-%d") {
        Ok(year) => Ok(year),
        Err(_) => {
            let mut padded = text.to_owned();
            padded.append("-01-01");
            parse_calendar_year(padded.as_str(), "%Y-%m-%d")
        },
    }
}

impl DateError {
    /// The error in words.
    pub open spec fn message_spec(self) -> Seq<char> {
        match self {
            DateError::OutOfRange => "input is out of range"@,
            DateError::Impossible => "no possible date and time matching input"@,
            DateError::NotEnough => "input is not enough for unique date and time"@,
            DateError::Invalid => "input contains invalid characters"@,
            DateError::TooShort => "premature end of input"@,
            DateError::TooLong => "trailing input"@,
            DateError::BadFormat => "bad or unsupported format string"@,
            DateError::Other => "input is no date"@,
        }
    }

    /// The error in words.
    pub fn message(&self) -> (result: String)
        ensures
            result@ == self.message_spec(),
    {
        match self {
            DateError::OutOfRange => "input is out of range".to_owned(),
            DateError::Impossible => "no possible date and time matching input".to_owned(),
            DateError::NotEnough => "input is not enough for unique date and time".to_owned(),
            DateError::Invalid => "input contains invalid characters".to_owned(),
            DateError::TooShort => "premature end of input".to_owned(),
            DateError::TooLong => "trailing input".to_owned(),
            DateError::BadFormat => "bad or unsupported format string".to_owned(),
            DateError::Other => "input is no date".to_owned(),
        }
    }
}

} // verus!
