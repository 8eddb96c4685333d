//! Dates given literally, as `YYYY-MM-DD HH:MM:SS`.

use vstd::prelude::*;
use chrono::Datelike;
use chrono::Timelike;
use crate::calendar::CalendarTime;
use crate::calendar::ReportedFields;
use crate::calendar::Timestamp;
use crate::calendar::exif_text;
use crate::calendar::lemma_text_layout;
use crate::calendar::lemma_text_separators;
use crate::calendar::literal_text;
use crate::digits::four_at;
use crate::digits::is_digit;
use crate::digits::lemma_four_digits_read;
use crate::digits::lemma_four_digits_written;
use crate::digits::lemma_two_digits_read;
use crate::digits::lemma_two_digits_written;
use crate::digits::two_at;
use crate::error::DateError;

verus! {

/// What a literal must hold at position `at`: one of the separators, or a
/// digit.
pub open spec fn fits_literal_at(s: Seq<char>, at: int) -> bool {
    if at == 4 || at == 7 {
        s[at] == '-'
    } else if at == 10 {
        s[at] == ' '
    } else if at == 13 || at == 16 {
        s[at] == ':'
    } else {
        is_digit(s[at])
    }
}

/// `s` is nineteen characters laid out as `YYYY-MM-DD HH:MM:SS`, every field
/// at its full width.
pub open spec fn has_literal_shape(s: Seq<char>) -> bool {
    &&& s.len() == 19
    &&& forall|at: int| 0 <= at < 19 ==> fits_literal_at(s, at)
}

/// The fields that a string of the literal shape writes down.
pub open spec fn literal_fields(s: Seq<char>) -> CalendarTime {
    CalendarTime {
        year: four_at(s, 0),
        month: two_at(s, 5),
        day: two_at(s, 8),
        hour: two_at(s, 11),
        minute: two_at(s, 14),
        second: two_at(s, 17),
    }
}

/// The date that a literal names: it has the literal shape and its fields
/// are a valid date and time of day.
pub open spec fn literal_date(s: Seq<char>) -> Option<CalendarTime> {
    if has_literal_shape(s) && literal_fields(s).is_valid() {
        Some(literal_fields(s))
    } else {
        None
    }
}

/// `chrono::ParseError`, chrono's reason for turning a text down. It is
/// handed on and never looked into.
#[verifier::external_type_specification]
#[verifier::external_body]
pub struct ExParseError(chrono::ParseError);

/// `chrono::NaiveDateTime::parse_from_str` with the format
/// `%Y-%m-%d %H:%M:%S`, and the getters of `Datelike` and `Timelike` on what
/// it returns.
///
/// Trusted, and called only on text that has the literal shape. There
/// chrono reads each field from its digits and accepts the text exactly
/// when the day exists in the calendar, the hour is below 24, the minute
/// below 60 and the second at most 60. A second of 60 it reports as second
/// 59 with a nanosecond of a thousand million or more. Chrono's
/// `format::parse` reads the fields, and `Parsed::to_naive_date` and
/// `Parsed::to_naive_time` decide whether they are a date and a time.
#[verifier::external_body]
fn parse_date_time(text: &str) -> (parsed: Result<ReportedFields, chrono::ParseError>)
    requires
        has_literal_shape(text@),
    ensures
        parsed is Ok <==> literal_fields(text@).is_valid(),
        parsed matches Ok(fields) ==> fields.is_consistent() && fields.calendar_time()
            == literal_fields(text@),
{
    let date = chrono::NaiveDateTime::parse_from_str(text, "%Y-%m-%d %H:%M:%S")?;
    Ok(
        ReportedFields {
            year: date.year(),
            month: date.month(),
            day: date.day(),
            hour: date.hour(),
            minute: date.minute(),
            second: date.second(),
            nanosecond: date.nanosecond(),
        },
    )
}

/// Whether `text` has the literal shape.
fn check_literal_shape(text: &str) -> (fits: bool)
    ensures
        fits == has_literal_shape(text@),
{
    if text.unicode_len() != 19 {
        return false;
    }
    let mut at: usize = 0;
    while at < 19
        invariant
            at <= 19,
            text@.len() == 19,
            forall|before: int| 0 <= before < at ==> fits_literal_at(text@, before),
        decreases 19 - at,
    {
        let c = text.get_char(at);
        let fits = if at == 4 || at == 7 {
            c == '-'
        } else if at == 10 {
            c == ' '
        } else if at == 13 || at == 16 {
            c == ':'
        } else {
            '0' <= c && c <= '9'
        };
        if !fits {
            assert(!fits_literal_at(text@, at as int));
            return false;
        }
        at += 1;
    }
    true
}

/// Reads a date given as `YYYY-MM-DD HH:MM:SS`, 24-hour and zero-padded.
///
/// Text of any other shape is turned down before chrono sees it; chrono
/// then decides whether the fields are a date.
pub fn parse_literal(text: &str) -> (parsed: Result<Timestamp, DateError>)
    ensures
        match parsed {
            Ok(date) => literal_date(text@) == Some(date@) && literal_text(date@) == text@,
            Err(error) => literal_date(text@) is None && error == DateError::Format,
        },
{
    if !check_literal_shape(text) {
        return Err(DateError::Format);
    }
    match parse_date_time(text) {
        Ok(fields) => match Timestamp::from_reported(&fields) {
            Some(date) => {
                proof {
                    lemma_literal_round_trip(text@);
                }
                Ok(date)
            },
            None => Err(DateError::Format),
        },
        Err(_) => Err(DateError::Format),
    }
}

/// A literal that is laid out as `YYYY-MM-DD HH:MM:SS` and whose fields are
/// a valid date and time of day names that date, and the date written back
/// is the literal, character for character.
pub proof fn lemma_literal_round_trip(s: Seq<char>)
    requires
        has_literal_shape(s),
        literal_fields(s).is_valid(),
    ensures
        literal_date(s) == Some(literal_fields(s)),
        literal_text(literal_fields(s)) == s,
{
    let t = literal_fields(s);
    assert(fits_literal_at(s, 0) && fits_literal_at(s, 1) && fits_literal_at(s, 2)
        && fits_literal_at(s, 3) && fits_literal_at(s, 4) && fits_literal_at(s, 5)
        && fits_literal_at(s, 6) && fits_literal_at(s, 7) && fits_literal_at(s, 8)
        && fits_literal_at(s, 9) && fits_literal_at(s, 10) && fits_literal_at(s, 11)
        && fits_literal_at(s, 12) && fits_literal_at(s, 13) && fits_literal_at(s, 14)
        && fits_literal_at(s, 15) && fits_literal_at(s, 16) && fits_literal_at(s, 17)
        && fits_literal_at(s, 18));
    lemma_four_digits_written(s[0], s[1], s[2], s[3]);
    lemma_two_digits_written(s[5], s[6]);
    lemma_two_digits_written(s[8], s[9]);
    lemma_two_digits_written(s[11], s[12]);
    lemma_two_digits_written(s[14], s[15]);
    lemma_two_digits_written(s[17], s[18]);
    lemma_text_layout(t, '-');
    assert(literal_text(t) =~= s);
}

/// The date-taken tag of a valid literal holds the literal with its two
/// hyphens turned into colons.
pub proof fn lemma_literal_tag_text(s: Seq<char>)
    requires
        has_literal_shape(s),
        literal_fields(s).is_valid(),
    ensures
        exif_text(literal_fields(s)) == s.update(4, ':').update(7, ':'),
{
    lemma_literal_round_trip(s);
    lemma_text_separators(literal_fields(s), '-', ':');
}

/// Writing a valid date and reading the text back gives the date.
pub proof fn lemma_literal_text_names_date(t: CalendarTime)
    requires
        t.is_valid(),
    ensures
        literal_date(literal_text(t)) == Some(t),
{
    let s = literal_text(t);
    lemma_text_layout(t, '-');
    lemma_four_digits_read(t.year);
    lemma_two_digits_read(t.month);
    lemma_two_digits_read(t.day);
    lemma_two_digits_read(t.hour);
    lemma_two_digits_read(t.minute);
    lemma_two_digits_read(t.second);
    assert(s.len() == 19);
    assert forall|at: int| 0 <= at < 19 implies fits_literal_at(s, at) by {
    }
    assert(literal_fields(s) == t);
}

} // verus!
