use exif_date::calendar::Timestamp;
use exif_date::error::DateError;
use exif_date::source::resolve;
use exif_date::source::DateSource;
use exif_date::source::FileTime;
use exif_date::source::Resolution;
use exif_date::target::TargetFile;

#[test]
fn keywords_select_their_sources() {
    assert!(matches!(DateSource::from_arg("filename"), DateSource::FromFilename));
    assert!(matches!(DateSource::from_arg("modified"), DateSource::FromModifiedTime));
    assert!(matches!(DateSource::from_arg("created"), DateSource::FromCreatedTime));
}

#[test]
fn anything_else_is_taken_for_a_literal() {
    for argument in ["2024-01-15 14:30:00", "", "yesterday", "file name", "filenames", "modify"] {
        match DateSource::from_arg(argument) {
            DateSource::Literal(text) => assert_eq!(text, argument),
            other => panic!("{:?}", other),
        }
    }
}

#[test]
fn keywords_are_matched_with_their_case_and_whole() {
    for argument in ["Filename", "FILENAME", "Modified", "CREATED", " created", "created ", "filename\n"]
    {
        match DateSource::from_arg(argument) {
            DateSource::Literal(text) => assert_eq!(text, argument),
            other => panic!("{:?}", other),
        }
    }
}

#[test]
fn literal_source_resolves_to_the_date_it_names() {
    let target = TargetFile::new("photo.jpg");
    let source = DateSource::from_arg("2024-01-15 14:30:00");
    let expected = Timestamp::new(2024, 1, 15, 14, 30, 0).unwrap();
    assert_eq!(resolve(&source, &target), Resolution::Resolved(expected));
}

#[test]
fn literal_source_does_not_look_at_the_file_name() {
    let target = TargetFile::new("202403_vacation.jpg");
    let source = DateSource::from_arg("2001-02-03 04:05:06");
    let expected = Timestamp::new(2001, 2, 3, 4, 5, 6).unwrap();
    assert_eq!(resolve(&source, &target), Resolution::Resolved(expected));
}

#[test]
fn argument_that_is_no_keyword_and_no_date_is_a_format_error() {
    let target = TargetFile::new("202403_vacation.jpg");
    for argument in ["", "yesterday", "Filename", "2024-13-01 00:00:00", "2024-01-15", "202403"] {
        let source = DateSource::from_arg(argument);
        assert_eq!(resolve(&source, &target), Resolution::Failed(DateError::Format));
    }
}

#[test]
fn filename_source_resolves_to_the_first_of_the_month() {
    let target = TargetFile::new("202403_vacation.jpg");
    let expected = Timestamp::new(2024, 3, 1, 0, 0, 0).unwrap();
    assert_eq!(resolve(&DateSource::FromFilename, &target), Resolution::Resolved(expected));
}

#[test]
fn filename_source_fails_as_the_file_name_does() {
    let plain = TargetFile::new("photo.jpg");
    assert_eq!(resolve(&DateSource::FromFilename, &plain), Resolution::Failed(DateError::Pattern));
    let late = TargetFile::new("202413.jpg");
    assert_eq!(resolve(&DateSource::FromFilename, &late), Resolution::Failed(DateError::Range));
    let none = TargetFile::new("..");
    assert_eq!(resolve(&DateSource::FromFilename, &none), Resolution::Failed(DateError::NoFileName));
}

#[test]
fn file_times_are_left_to_be_read() {
    let target = TargetFile::new("202403_vacation.jpg");
    assert_eq!(
        resolve(&DateSource::FromModifiedTime, &target),
        Resolution::Pending(FileTime::Modified)
    );
    assert_eq!(
        resolve(&DateSource::FromCreatedTime, &target),
        Resolution::Pending(FileTime::Created)
    );
}
