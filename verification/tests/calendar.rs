use exif_date::calendar::ReportedFields;
use exif_date::calendar::Timestamp;

fn fields(t: &Timestamp) -> (i32, u32, u32, u32, u32, u32) {
    (t.year(), t.month(), t.day(), t.hour(), t.minute(), t.second())
}

#[test]
fn new_keeps_the_fields_of_a_valid_date() {
    let t = Timestamp::new(2024, 1, 15, 14, 30, 0).unwrap();
    assert_eq!(fields(&t), (2024, 1, 15, 14, 30, 0));
}

#[test]
fn new_refuses_months_outside_one_to_twelve() {
    assert!(Timestamp::new(2024, 0, 1, 0, 0, 0).is_none());
    assert!(Timestamp::new(2024, 13, 1, 0, 0, 0).is_none());
    assert!(Timestamp::new(2024, 1, 1, 0, 0, 0).is_some());
    assert!(Timestamp::new(2024, 12, 1, 0, 0, 0).is_some());
}

#[test]
fn new_knows_the_length_of_each_month() {
    let lengths = [31, 28, 31, 30, 31, 30, 31, 31, 30, 31, 30, 31];
    for (index, length) in lengths.iter().enumerate() {
        let month = index as u32 + 1;
        assert!(Timestamp::new(2023, month, *length, 0, 0, 0).is_some());
        assert!(Timestamp::new(2023, month, *length + 1, 0, 0, 0).is_none());
        assert!(Timestamp::new(2023, month, 0, 0, 0, 0).is_none());
    }
}

#[test]
fn new_follows_the_gregorian_leap_years() {
    assert!(Timestamp::new(2024, 2, 29, 0, 0, 0).is_some());
    assert!(Timestamp::new(2023, 2, 29, 0, 0, 0).is_none());
    assert!(Timestamp::new(1900, 2, 29, 0, 0, 0).is_none());
    assert!(Timestamp::new(2000, 2, 29, 0, 0, 0).is_some());
    assert!(Timestamp::new(2100, 2, 29, 0, 0, 0).is_none());
    assert!(Timestamp::new(0, 2, 29, 0, 0, 0).is_some());
    assert!(Timestamp::new(2024, 2, 30, 0, 0, 0).is_none());
}

#[test]
fn new_refuses_years_that_four_digits_cannot_write() {
    assert!(Timestamp::new(-1, 1, 1, 0, 0, 0).is_none());
    assert!(Timestamp::new(0, 1, 1, 0, 0, 0).is_some());
    assert!(Timestamp::new(9999, 12, 31, 23, 59, 59).is_some());
    assert!(Timestamp::new(10000, 1, 1, 0, 0, 0).is_none());
}

#[test]
fn new_bounds_the_time_of_day() {
    assert!(Timestamp::new(2024, 1, 1, 23, 59, 59).is_some());
    assert!(Timestamp::new(2024, 1, 1, 24, 0, 0).is_none());
    assert!(Timestamp::new(2024, 1, 1, 0, 60, 0).is_none());
    assert!(Timestamp::new(2024, 1, 1, 0, 0, 60).is_some());
    assert!(Timestamp::new(2024, 1, 1, 0, 0, 61).is_none());
}

#[test]
fn exif_string_joins_the_date_with_colons() {
    let t = Timestamp::new(2024, 1, 15, 14, 30, 0).unwrap();
    assert_eq!(t.to_exif_string(), "2024:01:15 14:30:00");
}

#[test]
fn literal_string_joins_the_date_with_hyphens() {
    let t = Timestamp::new(2024, 1, 15, 14, 30, 0).unwrap();
    assert_eq!(t.to_literal_string(), "2024-01-15 14:30:00");
}

#[test]
fn both_strings_pad_every_field_with_zeros() {
    let t = Timestamp::new(7, 1, 2, 3, 4, 5).unwrap();
    assert_eq!(t.to_exif_string(), "0007:01:02 03:04:05");
    assert_eq!(t.to_literal_string(), "0007-01-02 03:04:05");
    let zero = Timestamp::new(0, 1, 1, 0, 0, 0).unwrap();
    assert_eq!(zero.to_exif_string(), "0000:01:01 00:00:00");
}

#[test]
fn both_strings_write_the_largest_fields() {
    let t = Timestamp::new(9999, 12, 31, 23, 59, 60).unwrap();
    assert_eq!(t.to_exif_string(), "9999:12:31 23:59:60");
    assert_eq!(t.to_literal_string(), "9999-12-31 23:59:60");
}

#[test]
fn exif_string_is_nineteen_ascii_characters() {
    let t = Timestamp::new(1987, 10, 9, 8, 7, 6).unwrap();
    let text = t.to_exif_string();
    assert_eq!(text.len(), 19);
    assert!(text.is_ascii());
    assert_eq!(text, "1987:10:09 08:07:06");
}

fn reported(second: u32, nanosecond: u32) -> ReportedFields {
    ReportedFields { year: 2015, month: 6, day: 30, hour: 23, minute: 59, second, nanosecond }
}

#[test]
fn from_reported_drops_the_fraction_of_a_second() {
    let t = Timestamp::from_reported(&reported(58, 999_999_999)).unwrap();
    assert_eq!(fields(&t), (2015, 6, 30, 23, 59, 58));
    let whole = Timestamp::from_reported(&reported(59, 0)).unwrap();
    assert_eq!(fields(&whole), (2015, 6, 30, 23, 59, 59));
}

#[test]
fn from_reported_counts_a_leap_second_as_second_sixty() {
    let t = Timestamp::from_reported(&reported(59, 1_000_000_000)).unwrap();
    assert_eq!(fields(&t), (2015, 6, 30, 23, 59, 60));
    assert_eq!(t.to_exif_string(), "2015:06:30 23:59:60");
    let late = Timestamp::from_reported(&reported(59, 1_999_999_999)).unwrap();
    assert_eq!(late.second(), 60);
}

#[test]
fn from_reported_refuses_fields_that_no_clock_reports() {
    assert!(Timestamp::from_reported(&reported(30, 1_000_000_000)).is_none());
    assert!(Timestamp::from_reported(&reported(59, 2_000_000_000)).is_none());
    assert!(Timestamp::from_reported(&reported(60, 0)).is_none());
}

#[test]
fn from_reported_refuses_what_new_refuses() {
    let february = ReportedFields {
        year: 2023,
        month: 2,
        day: 29,
        hour: 0,
        minute: 0,
        second: 0,
        nanosecond: 0,
    };
    assert!(Timestamp::from_reported(&february).is_none());
    let far = ReportedFields { year: 12024, ..february };
    assert!(Timestamp::from_reported(&ReportedFields { day: 1, ..far }).is_none());
    let early = ReportedFields { year: -1, day: 1, ..february };
    assert!(Timestamp::from_reported(&early).is_none());
}

#[test]
fn strings_hold_digits_spaces_and_separators_only() {
    let dates = [
        Timestamp::new(2024, 1, 15, 14, 30, 0).unwrap(),
        Timestamp::new(0, 1, 1, 0, 0, 0).unwrap(),
        Timestamp::new(9999, 12, 31, 23, 59, 60).unwrap(),
    ];
    for date in dates {
        let tag = date.to_exif_string();
        assert_eq!(tag.chars().count(), 19);
        assert!(tag.chars().all(|c| c.is_ascii_digit() || c == ' ' || c == ':'));
        let literal = date.to_literal_string();
        assert_eq!(literal.chars().count(), 19);
        assert!(literal.chars().all(|c| c.is_ascii_digit() || c == ' ' || c == ':' || c == '-'));
        assert_eq!(literal.replacen('-', ":", 2), tag);
    }
}
