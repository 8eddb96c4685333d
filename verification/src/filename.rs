//! Dates read off the beginning of a file's name, `YYYYMM`.

use vstd::prelude::*;
use crate::calendar::exif_text;
use crate::calendar::literal_text;
use crate::calendar::CalendarTime;
use crate::calendar::Timestamp;
use crate::error::DateError;
use crate::digits::digit_at;
use crate::digits::four_at;
use crate::digits::four_digits;
use crate::digits::is_digit;
use crate::digits::lemma_four_digits_read;
use crate::digits::lemma_two_digits_read;
use crate::digits::push_four_digits;
use crate::digits::push_two_digits;
use crate::digits::two_at;
use crate::digits::two_digits;
use crate::error::date_outcome;
use crate::literal::lemma_literal_text_names_date;
use crate::literal::parse_literal;
use crate::target::TargetFile;
use crate::target::TargetFileView;

verus! {

/// The name begins with six decimal digits of ASCII.
pub open spec fn starts_with_six_digits(name: Seq<char>) -> bool {
    &&& name.len() >= 6
    &&& forall|at: int| 0 <= at < 6 ==> is_digit(#[trigger] name[at])
}

/// Midnight on the first day of a month.
pub open spec fn first_of_month(year: int, month: int) -> CalendarTime {
    CalendarTime { year, month, day: 1, hour: 0, minute: 0, second: 0 }
}

/// The date that a file's name gives: its first four digits are the year,
/// the next two the month. Whatever follows the six digits is not looked at,
/// so any name that begins with six digits is read as a date.
pub open spec fn file_name_date(name: Seq<char>) -> Result<CalendarTime, DateError> {
    if !starts_with_six_digits(name) {
        Err(DateError::Pattern)
    } else if four_at(name, 0) < 1900 || four_at(name, 0) > 2100 || two_at(name, 4) < 1 || two_at(
        name,
        4,
    ) > 12 {
        Err(DateError::Range)
    } else {
        Ok(first_of_month(four_at(name, 0), two_at(name, 4)))
    }
}

/// The date that the name of a target file gives.
pub open spec fn target_file_date(target: TargetFileView) -> Result<CalendarTime, DateError> {
    match target.file_name {
        Some(name) => file_name_date(name),
        None => Err(DateError::NoFileName),
    }
}

/// `regex::Regex::new` on the pattern `^(\d{6})`, then `Regex::captures` on
/// `name`: what the group captured, if the pattern matched.
///
/// Trusted: a match starts at the beginning of `name` and its group holds
/// the first six characters; six decimal digits of ASCII at the beginning
/// always match, and no other character of ASCII is matched. The pattern's
/// `\d` also takes the decimal digits of other scripts: which characters
/// beyond ASCII those are is not stated. The crate's syntax reference gives
/// `^` as the beginning of the haystack, `\d` as a decimal digit of
/// Unicode, `x{n}` as exactly n times x, and `(exp)` as a numbered group.
#[verifier::external_body]
fn leading_digits(name: &str) -> (found: Option<String>)
    ensures
        found matches Some(digits) ==> name@.len() >= 6 && digits@ == name@.subrange(0, 6),
        starts_with_six_digits(name@) ==> found is Some,
        found is Some ==> forall|at: int|
            0 <= at < 6 ==> is_digit(#[trigger] name@[at]) || name@[at] > '\x7f',
{
    let pattern = regex::Regex::new(r"^(\d{6})").unwrap();
    pattern.captures(name).map(|groups| groups[1].to_string())
}

/// The year and the month that six digits write.
fn read_year_month(digits: &str) -> (read: Option<(u32, u32)>)
    requires
        digits@.len() == 6,
    ensures
        read is Some <==> starts_with_six_digits(digits@),
        read matches Some((year, month)) ==> year == four_at(digits@, 0) && month == two_at(
            digits@,
            4,
        ),
{
    let thousands = digit_at(digits, 0)?;
    let hundreds = digit_at(digits, 1)?;
    let tens = digit_at(digits, 2)?;
    let ones = digit_at(digits, 3)?;
    let month_tens = digit_at(digits, 4)?;
    let month_ones = digit_at(digits, 5)?;
    Some((1000 * thousands + 100 * hundreds + 10 * tens + ones, 10 * month_tens + month_ones))
}

/// The literal that names midnight on the first day of a month.
fn first_of_month_literal(year: u32, month: u32) -> (text: String)
    requires
        year <= 9999,
        month <= 99,
    ensures
        text@ == literal_text(first_of_month(year as int, month as int)),
{
    let mut text = String::new();
    push_four_digits(&mut text, year);
    text.append("-");
    push_two_digits(&mut text, month);
    text.append("-01 00:00:00");
    proof {
        reveal_strlit("-");
        reveal_strlit("-01 00:00:00");
        assert(two_digits(1) =~= seq!['0', '1']);
        assert(two_digits(0) =~= seq!['0', '0']);
        assert(text@ =~= literal_text(first_of_month(year as int, month as int)));
    }
    text
}

/// Reads the date that a file's name begins with: `YYYYMM`, with the year
/// from 1900 to 2100. The date is midnight on the first day of that month.
pub fn date_from_file_name(name: &str) -> (date: Result<Timestamp, DateError>)
    ensures
        date_outcome(date) == file_name_date(name@),
{
    let digits = match leading_digits(name) {
        Some(digits) => digits,
        None => {
            return Err(DateError::Pattern);
        },
    };
    let (year, month) = match read_year_month(digits.as_str()) {
        Some(read) => read,
        None => {
            return Err(DateError::Pattern);
        },
    };
    if year < 1900 || year > 2100 || month < 1 || month > 12 {
        return Err(DateError::Range);
    }
    let literal = first_of_month_literal(year, month);
    proof {
        lemma_literal_text_names_date(first_of_month(year as int, month as int));
    }
    parse_literal(literal.as_str())
}

/// Reads the date off the name of the target file.
pub fn extract_date_from_filename(target: &TargetFile) -> (date: Result<Timestamp, DateError>)
    ensures
        date_outcome(date) == target_file_date(target@),
{
    match target.file_name() {
        Some(name) => date_from_file_name(name),
        None => Err(DateError::NoFileName),
    }
}

/// A name that begins with the four digits of a year from 1900 to 2100 and
/// the two digits of a month gives midnight on the first day of that month,
/// whatever follows the six digits.
pub proof fn lemma_dated_file_name(year: int, month: int, rest: Seq<char>)
    requires
        1900 <= year <= 2100,
        1 <= month <= 12,
    ensures
        file_name_date(four_digits(year) + two_digits(month) + rest) matches Ok(date) && date
            == first_of_month(year, month),
{
    lemma_six_digits_read(year, month, rest);
}

/// The date-taken tag for the first of a month holds the year, the month,
/// and `:01 00:00:00` behind them.
pub proof fn lemma_first_of_month_tag_text(year: int, month: int)
    ensures
        exif_text(first_of_month(year, month)) == four_digits(year) + seq![':'] + two_digits(
            month,
        ) + ":01 00:00:00"@,
{
    reveal_strlit(":01 00:00:00");
    assert(two_digits(1) =~= seq!['0', '1']);
    assert(two_digits(0) =~= seq!['0', '0']);
    assert(exif_text(first_of_month(year, month)) =~= four_digits(year) + seq![':']
        + two_digits(month) + ":01 00:00:00"@);
}

/// A name that begins with six digits of which the first four are no year
/// from 1900 to 2100, or the last two no month, gives the range error.
pub proof fn lemma_file_name_out_of_range(year: int, month: int, rest: Seq<char>)
    requires
        0 <= year <= 9999,
        0 <= month <= 99,
        year < 1900 || year > 2100 || month < 1 || month > 12,
    ensures
        file_name_date(four_digits(year) + two_digits(month) + rest) matches Err(error) && error
            == DateError::Range,
{
    lemma_six_digits_read(year, month, rest);
}

/// A name that does not begin with six digits gives the pattern error.
pub proof fn lemma_file_name_without_date(name: Seq<char>)
    requires
        !starts_with_six_digits(name),
    ensures
        file_name_date(name) matches Err(error) && error == DateError::Pattern,
{
}

/// Only the first six characters of a name count.
pub proof fn lemma_file_name_date_ignores_rest(name: Seq<char>, other: Seq<char>)
    requires
        name.len() >= 6,
        other.len() >= 6,
        name.subrange(0, 6) == other.subrange(0, 6),
    ensures
        file_name_date(name) == file_name_date(other),
{
    assert forall|at: int| 0 <= at < 6 implies name[at] == other[at] by {
        assert(name[at] == name.subrange(0, 6)[at]);
        assert(other[at] == other.subrange(0, 6)[at]);
    }
}

proof fn lemma_six_digits_read(year: int, month: int, rest: Seq<char>)
    requires
        0 <= year <= 9999,
        0 <= month <= 99,
    ensures
        starts_with_six_digits(four_digits(year) + two_digits(month) + rest),
        four_at(four_digits(year) + two_digits(month) + rest, 0) == year,
        two_at(four_digits(year) + two_digits(month) + rest, 4) == month,
{
    let name = four_digits(year) + two_digits(month) + rest;
    lemma_four_digits_read(year);
    lemma_two_digits_read(month);
    assert(name[0] == four_digits(year)[0]);
    assert(name[1] == four_digits(year)[1]);
    assert(name[2] == four_digits(year)[2]);
    assert(name[3] == four_digits(year)[3]);
    assert(name[4] == two_digits(month)[0]);
    assert(name[5] == two_digits(month)[1]);
}

} // verus!
