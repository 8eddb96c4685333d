//! Calendar dates with a time of day, and their two textual forms.

use vstd::prelude::*;
use crate::digits::four_digits;
use crate::digits::is_digit;
use crate::digits::lemma_four_digits_read;
use crate::digits::lemma_two_digits_read;
use crate::digits::push_four_digits;
use crate::digits::push_two_digits;
use crate::digits::two_digits;

verus! {

/// A date and time of day as mathematical integers: the model of a
/// [`Timestamp`].
pub struct CalendarTime {
    pub year: int,
    pub month: int,
    pub day: int,
    pub hour: int,
    pub minute: int,
    pub second: int,
}

/// Leap years of the proleptic Gregorian calendar.
pub open spec fn is_leap_year(year: int) -> bool {
    year % 4 == 0 && (year % 100 != 0 || year % 400 == 0)
}

/// The number of days of a month, for `month` from 1 to 12.
pub open spec fn days_in_month(year: int, month: int) -> int {
    if month == 2 {
        if is_leap_year(year) {
            29
        } else {
            28
        }
    } else if month == 4 || month == 6 || month == 9 || month == 11 {
        30
    } else {
        31
    }
}

impl CalendarTime {
    /// The day exists in the calendar, the year has four digits, and the
    /// time is a time of day. A second of 60 stands for a leap second.
    pub open spec fn is_valid(self) -> bool {
        &&& 0 <= self.year <= 9999
        &&& 1 <= self.month <= 12
        &&& 1 <= self.day <= days_in_month(self.year, self.month)
        &&& 0 <= self.hour <= 23
        &&& 0 <= self.minute <= 59
        &&& 0 <= self.second <= 60
    }
}

/// Year, month and day joined by `separator`, a space, and the time of day
/// joined by colons, every field zero-padded to its width.
pub open spec fn date_time_text(t: CalendarTime, separator: Seq<char>) -> Seq<char> {
    four_digits(t.year) + separator + two_digits(t.month) + separator + two_digits(t.day)
        + seq![' '] + two_digits(t.hour) + seq![':'] + two_digits(t.minute) + seq![':']
        + two_digits(t.second)
}

/// The form in which a date is given on input: `YYYY-MM-DD HH:MM:SS`.
pub open spec fn literal_text(t: CalendarTime) -> Seq<char> {
    date_time_text(t, seq!['-'])
}

/// The form in which the date-taken tag holds a date: `YYYY:MM:DD HH:MM:SS`.
pub open spec fn exif_text(t: CalendarTime) -> Seq<char> {
    date_time_text(t, seq![':'])
}

/// The fields of a date and time as a calendar library hands them out: the
/// second stays below 60, and a leap second is second 59 with a nanosecond
/// of a thousand million or more.
#[derive(Clone, Copy, Debug, PartialEq, Eq)]
pub struct ReportedFields {
    pub year: i32,
    pub month: u32,
    pub day: u32,
    pub hour: u32,
    pub minute: u32,
    pub second: u32,
    pub nanosecond: u32,
}

impl ReportedFields {
    /// The second is below 60; the nanosecond is below two thousand million,
    /// and reaches a thousand million only in second 59.
    pub open spec fn is_consistent(self) -> bool {
        &&& self.second <= 59
        &&& self.nanosecond < 2_000_000_000
        &&& self.nanosecond >= 1_000_000_000 ==> self.second == 59
    }

    /// The date and time that the fields stand for, to the second: a leap
    /// second counts as second 60.
    pub open spec fn calendar_time(self) -> CalendarTime {
        CalendarTime {
            year: self.year as int,
            month: self.month as int,
            day: self.day as int,
            hour: self.hour as int,
            minute: self.minute as int,
            second: if self.nanosecond >= 1_000_000_000 {
                self.second + 1
            } else {
                self.second as int
            },
        }
    }
}

/// A valid calendar date and time of day, with second precision.
#[derive(Clone, Copy, Debug, PartialEq, Eq)]
pub struct Timestamp {
    year: i32,
    month: u32,
    day: u32,
    hour: u32,
    minute: u32,
    second: u32,
}

impl View for Timestamp {
    type V = CalendarTime;

    closed spec fn view(&self) -> CalendarTime {
        CalendarTime {
            year: self.year as int,
            month: self.month as int,
            day: self.day as int,
            hour: self.hour as int,
            minute: self.minute as int,
            second: self.second as int,
        }
    }
}

/// Whether `year` is a leap year.
fn leap_year(year: i32) -> (leap: bool)
    requires
        0 <= year,
    ensures
        leap == is_leap_year(year as int),
{
    year % 4 == 0 && (year % 100 != 0 || year % 400 == 0)
}

/// The number of days of a month.
fn month_length(year: i32, month: u32) -> (days: u32)
    requires
        0 <= year,
    ensures
        days == days_in_month(year as int, month as int),
{
    if month == 2 {
        if leap_year(year) {
            29
        } else {
            28
        }
    } else if month == 4 || month == 6 || month == 9 || month == 11 {
        30
    } else {
        31
    }
}

impl Timestamp {
    /// Every timestamp is a valid date and time of day.
    #[verifier::type_invariant]
    spec fn well_formed(&self) -> bool {
        self@.is_valid()
    }

    /// The timestamp with the given fields, if they name a valid date and
    /// time of day.
    pub fn new(year: i32, month: u32, day: u32, hour: u32, minute: u32, second: u32) -> (made:
        Option<Timestamp>)
        ensures
            made is Some <==> (CalendarTime {
                year: year as int,
                month: month as int,
                day: day as int,
                hour: hour as int,
                minute: minute as int,
                second: second as int,
            }).is_valid(),
            made matches Some(t) ==> t@ == (CalendarTime {
                year: year as int,
                month: month as int,
                day: day as int,
                hour: hour as int,
                minute: minute as int,
                second: second as int,
            }),
    {
        if year < 0 || year > 9999 || month < 1 || month > 12 || day < 1 || hour > 23 || minute
            > 59 || second > 60 {
            return None;
        }
        if day > month_length(year, month) {
            return None;
        }
        Some(Timestamp { year, month, day, hour, minute, second })
    }

    /// The timestamp that reported fields stand for, if they are consistent
    /// and name a valid date and time of day. Fractions of a second are
    /// dropped.
    pub fn from_reported(fields: &ReportedFields) -> (made: Option<Timestamp>)
        ensures
            made is Some <==> fields.is_consistent() && fields.calendar_time().is_valid(),
            made matches Some(t) ==> t@ == fields.calendar_time(),
    {
        if fields.second > 59 || fields.nanosecond >= 2_000_000_000 {
            None
        } else if fields.nanosecond >= 1_000_000_000 {
            if fields.second == 59 {
                Timestamp::new(fields.year, fields.month, fields.day, fields.hour, fields.minute, 60)
            } else {
                None
            }
        } else {
            Timestamp::new(
                fields.year,
                fields.month,
                fields.day,
                fields.hour,
                fields.minute,
                fields.second,
            )
        }
    }

    /// The year, from 0 to 9999.
    pub fn year(&self) -> (year: i32)
        ensures
            year == self@.year,
            0 <= year <= 9999,
    {
        proof {
            use_type_invariant(self);
        }
        self.year
    }

    /// The month, from 1 to 12.
    pub fn month(&self) -> (month: u32)
        ensures
            month == self@.month,
            1 <= month <= 12,
    {
        proof {
            use_type_invariant(self);
        }
        self.month
    }

    /// The day of the month, from 1 to the length of the month.
    pub fn day(&self) -> (day: u32)
        ensures
            day == self@.day,
            1 <= day <= days_in_month(self@.year, self@.month),
    {
        proof {
            use_type_invariant(self);
        }
        self.day
    }

    /// The hour, from 0 to 23.
    pub fn hour(&self) -> (hour: u32)
        ensures
            hour == self@.hour,
            hour <= 23,
    {
        proof {
            use_type_invariant(self);
        }
        self.hour
    }

    /// The minute, from 0 to 59.
    pub fn minute(&self) -> (minute: u32)
        ensures
            minute == self@.minute,
            minute <= 59,
    {
        proof {
            use_type_invariant(self);
        }
        self.minute
    }

    /// The second, from 0 to 59, or 60 in a leap second.
    pub fn second(&self) -> (second: u32)
        ensures
            second == self@.second,
            second <= 60,
    {
        proof {
            use_type_invariant(self);
        }
        self.second
    }

    /// The date as text, with `separator` between year, month and day.
    fn render(&self, separator: &str) -> (text: String)
        ensures
            text@ == date_time_text(self@, separator@),
    {
        proof {
            use_type_invariant(self);
            reveal_strlit(" ");
            reveal_strlit(":");
        }
        let mut text = String::new();
        push_four_digits(&mut text, self.year as u32);
        text.append(separator);
        push_two_digits(&mut text, self.month);
        text.append(separator);
        push_two_digits(&mut text, self.day);
        text.append(" ");
        push_two_digits(&mut text, self.hour);
        text.append(":");
        push_two_digits(&mut text, self.minute);
        text.append(":");
        push_two_digits(&mut text, self.second);
        assert(text@ =~= date_time_text(self@, separator@));
        text
    }

    /// The date as it is given on input, `YYYY-MM-DD HH:MM:SS`.
    pub fn to_literal_string(&self) -> (text: String)
        ensures
            text@ == literal_text(self@),
    {
        proof {
            reveal_strlit("-");
        }
        let text = self.render("-");
        assert("-"@ =~= seq!['-']);
        text
    }

    /// The date as the date-taken tag holds it, `YYYY:MM:DD HH:MM:SS`.
    pub fn to_exif_string(&self) -> (text: String)
        ensures
            text@ == exif_text(self@),
    {
        proof {
            reveal_strlit(":");
        }
        let text = self.render(":");
        assert(":"@ =~= seq![':']);
        text
    }
}

/// The nineteen characters of a date's text, one by one.
pub proof fn lemma_text_layout(t: CalendarTime, separator: char)
    ensures
        date_time_text(t, seq![separator]) == seq![
            four_digits(t.year)[0],
            four_digits(t.year)[1],
            four_digits(t.year)[2],
            four_digits(t.year)[3],
            separator,
            two_digits(t.month)[0],
            two_digits(t.month)[1],
            separator,
            two_digits(t.day)[0],
            two_digits(t.day)[1],
            ' ',
            two_digits(t.hour)[0],
            two_digits(t.hour)[1],
            ':',
            two_digits(t.minute)[0],
            two_digits(t.minute)[1],
            ':',
            two_digits(t.second)[0],
            two_digits(t.second)[1],
        ],
{
    let year = four_digits(t.year);
    let month = two_digits(t.month);
    let day = two_digits(t.day);
    let hour = two_digits(t.hour);
    let minute = two_digits(t.minute);
    let second = two_digits(t.second);
    let sep = seq![separator];
    let date = year + sep + month + sep + day;
    assert(date =~= seq![
        year[0],
        year[1],
        year[2],
        year[3],
        separator,
        month[0],
        month[1],
        separator,
        day[0],
        day[1],
    ]);
    let time = hour + seq![':'] + minute + seq![':'] + second;
    assert(time =~= seq![hour[0], hour[1], ':', minute[0], minute[1], ':', second[0], second[1]]);
    assert(date_time_text(t, sep) =~= date + seq![' '] + time);
    assert(date + seq![' '] + time =~= seq![
        year[0],
        year[1],
        year[2],
        year[3],
        separator,
        month[0],
        month[1],
        separator,
        day[0],
        day[1],
        ' ',
        hour[0],
        hour[1],
        ':',
        minute[0],
        minute[1],
        ':',
        second[0],
        second[1],
    ]);
}

/// Two texts of one date differ in their separators and in nothing else:
/// the separators stand at the fifth and the eighth place.
pub proof fn lemma_text_separators(t: CalendarTime, from: char, to: char)
    ensures
        date_time_text(t, seq![to]) == date_time_text(t, seq![from]).update(4, to).update(7, to),
{
    let year = four_digits(t.year);
    let month = two_digits(t.month);
    let rest = two_digits(t.day) + seq![' '] + two_digits(t.hour) + seq![':'] + two_digits(
        t.minute,
    ) + seq![':'] + two_digits(t.second);
    let from_head = year + seq![from] + month + seq![from];
    let to_head = year + seq![to] + month + seq![to];
    assert(to_head =~= from_head.update(4, to).update(7, to));
    assert(date_time_text(t, seq![from]) =~= from_head + rest);
    assert(date_time_text(t, seq![to]) =~= to_head + rest);
    assert(to_head + rest =~= (from_head + rest).update(4, to).update(7, to));
}

/// The text of a valid date is nineteen characters, each of them a decimal
/// digit, a space or the separator: unless the separator is one, the text
/// holds no quote and nothing but ASCII.
pub proof fn lemma_text_is_plain(t: CalendarTime, separator: char)
    requires
        t.is_valid(),
    ensures
        date_time_text(t, seq![separator]).len() == 19,
        forall|at: int|
            0 <= at < 19 ==> {
                let c = #[trigger] date_time_text(t, seq![separator])[at];
                is_digit(c) || c == ' ' || c == ':' || c == separator
            },
{
    lemma_text_layout(t, separator);
    lemma_four_digits_read(t.year);
    lemma_two_digits_read(t.month);
    lemma_two_digits_read(t.day);
    lemma_two_digits_read(t.hour);
    lemma_two_digits_read(t.minute);
    lemma_two_digits_read(t.second);
}

} // verus!
