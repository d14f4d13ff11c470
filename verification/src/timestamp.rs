//! Timestamps as the store holds them: text of the form `2024-01-31 18:05:09`.
//! In memory a timestamp is a number of whole seconds since
//! 1970-01-01 00:00:00; the calendar arithmetic is chrono's.

use vstd::prelude::*;

verus! {

/// The layout of a stored timestamp, in chrono's notation.
pub const TIMESTAMP_FORMAT: &'static str = "%Y-%m-%d %H:%M:%S";

/// Why a stored timestamp could not be read.
#[derive(Debug, Clone, Copy, PartialEq, Eq)]
pub enum TimestampError {
    /// The text is not a date and time in the stored layout.
    Malformed,
}

/// chrono's reason for rejecting a text; carried through, never looked into.
#[verifier::external_type_specification]
#[verifier::external_body]
pub struct ExParseError(chrono::ParseError);

/// What chrono renders for the moment `secs` seconds after the epoch under
/// the layout `layout`; none where chrono has no such moment or cannot
/// render the layout.
pub uninterp spec fn rendered_seconds(secs: i64, layout: Seq<char>) -> Option<Seq<char>>;

/// The moment, in seconds after the epoch, that chrono reads from `text`
/// under the layout `layout`; none where chrono rejects the text.
pub uninterp spec fn parsed_seconds(text: Seq<char>, layout: Seq<char>) -> Option<i64>;

/// View of an optional string.
pub open spec fn text_view(text: Option<String>) -> Option<Seq<char>> {
    match text {
        Some(t) => Some(t@),
        None => None,
    }
}

/// Calls `chrono::NaiveDateTime::format` on the moment that
/// `chrono::DateTime::from_timestamp` makes of `secs`, and writes the result
/// out. Trusted: the text is a function of `secs` and `layout` alone, and
/// there is none exactly when chrono reports an out-of-range moment or a
/// formatting error.
#[verifier::external_body]
fn render_seconds(secs: i64, layout: &str) -> (text: Option<String>)
    ensures
        text_view(text) == rendered_seconds(secs, layout@),
{
    let moment = chrono::DateTime::from_timestamp(secs, 0)?;
    let mut out = String::new();
    match moment.naive_utc().format(layout).write_to(&mut out) {
        Ok(()) => Some(out),
        Err(_) => None,
    }
}

/// Calls `chrono::NaiveDateTime::parse_from_str` and takes the seconds of the
/// moment it read. Trusted: the outcome is a function of `text` and `layout`
/// alone, and it is an error exactly when chrono rejects the text.
#[verifier::external_body]
fn read_seconds(text: &str, layout: &str) -> (secs: Result<i64, chrono::ParseError>)
    ensures
        match secs {
            Ok(s) => parsed_seconds(text@, layout@) == Some(s),
            Err(_) => parsed_seconds(text@, layout@).is_none(),
        },
{
    chrono::NaiveDateTime::parse_from_str(text, layout).map(|moment| moment.and_utc().timestamp())
}

/// What reading a stored timestamp gives, from what chrono read.
pub open spec fn timestamp_of(parsed: Option<i64>) -> Result<i64, TimestampError> {
    match parsed {
        Some(secs) => Ok(secs),
        None => Err(TimestampError::Malformed),
    }
}

/// Renders a timestamp as the store holds it. There is no text for a moment
/// outside the calendar's range.
pub fn format_timestamp(secs: i64) -> (text: Option<String>)
    ensures
        text_view(text) == rendered_seconds(secs, TIMESTAMP_FORMAT@),
{
    render_seconds(secs, TIMESTAMP_FORMAT)
}

/// Reads a timestamp as the store holds it.
pub fn parse_timestamp(text: &str) -> (secs: Result<i64, TimestampError>)
    ensures
        secs == timestamp_of(parsed_seconds(text@, TIMESTAMP_FORMAT@)),
{
    match read_seconds(text, TIMESTAMP_FORMAT) {
        Ok(secs) => Ok(secs),
        Err(_) => Err(TimestampError::Malformed),
    }
}

} // verus!
