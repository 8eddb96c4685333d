use exif_date::calendar::Timestamp;
use exif_date::error::DateError;
use exif_date::error::ErrorKind;
use exif_date::error::UpdateError;
use exif_date::source::FileTime;
use exif_date::update::update_exif_date;
use exif_date::update::Action;
use exif_date::update::Event;
use exif_date::update::Phase;
use exif_date::update::UpdateRun;

fn started(file_path: &str, date_source: &str) -> UpdateRun {
    let run = UpdateRun::new(file_path, date_source);
    assert!(matches!(run.phase, Phase::Unstarted));
    assert!(matches!(run.phase.action(), Action::CheckExists));
    run
}

fn failure(run: UpdateRun) -> UpdateError {
    assert_eq!(run.exit_code(), Some(1));
    match run.into_outcome() {
        Some(Err(error)) => error,
        other => panic!("{:?}", other),
    }
}

fn script_of(action: Action) -> String {
    match action {
        Action::RunService(command) => {
            assert_eq!(command.program, "powershell");
            assert_eq!(command.arguments[0], "-NoProfile");
            assert_eq!(command.arguments[1], "-Command");
            assert_eq!(command.arguments.len(), 3);
            command.arguments[2].clone()
        }
        other => panic!("{:?}", other),
    }
}

#[test]
fn literal_date_is_set_and_the_run_succeeds() {
    let run = started("photo.jpg", "2024-01-15 14:30:00");
    let (run, action) = update_exif_date(run, Event::Exists(true));
    assert!(matches!(action, Action::ResolvePath));
    let (run, action) =
        update_exif_date(run, Event::PathResolved("C:\\photos\\photo.jpg".to_string()));
    let script = script_of(action);
    assert!(script.contains("$dateStr = '2024:01:15 14:30:00'\n"));
    assert!(script.contains("::FromFile('C:\\photos\\photo.jpg')\n"));
    let (run, action) = update_exif_date(run, Event::ServiceExited(true, String::new()));
    assert!(matches!(action, Action::Stop));
    assert!(matches!(run.phase, Phase::Succeeded));
    assert_eq!(run.exit_code(), Some(0));
    assert!(matches!(run.into_outcome(), Some(Ok(()))));
}

#[test]
fn date_from_the_file_name_is_set_and_the_run_succeeds() {
    let run = started("202403_vacation.jpg", "filename");
    let (run, action) = update_exif_date(run, Event::Exists(true));
    assert!(matches!(action, Action::ResolvePath));
    match &run.phase {
        Phase::ResolvingPath(date) => assert_eq!(date.to_exif_string(), "2024:03:01 00:00:00"),
        other => panic!("{:?}", other),
    }
    let (run, action) =
        update_exif_date(run, Event::PathResolved("D:\\in\\202403_vacation.jpg".to_string()));
    let script = script_of(action);
    assert!(script.contains("$dateStr = '2024:03:01 00:00:00'\n"));
    let (run, action) = update_exif_date(run, Event::ServiceExited(true, String::new()));
    assert!(matches!(action, Action::Stop));
    assert_eq!(run.exit_code(), Some(0));
}

#[test]
fn missing_file_is_not_found_before_its_time_is_read() {
    let run = started("missing.jpg", "modified");
    let (run, action) = update_exif_date(run, Event::Exists(false));
    assert!(matches!(action, Action::Stop));
    let error = failure(run);
    assert_eq!(error.kind(), ErrorKind::NotFound);
    assert!(error.message().contains("File not found"));
    assert_eq!(error.message(), "File not found: missing.jpg");
}

#[test]
fn missing_file_is_not_found_whatever_the_date_source() {
    let sources =
        ["filename", "modified", "created", "2024-01-15 14:30:00", "2024-13-01 00:00:00", ""];
    for source in sources {
        let run = started("photo.jpg", source);
        let (run, action) = update_exif_date(run, Event::Exists(false));
        assert!(matches!(action, Action::Stop));
        assert_eq!(failure(run).message(), "File not found: photo.jpg");
    }
}

#[test]
fn month_thirteen_fails_the_run_as_invalid_date() {
    let run = started("photo.jpg", "2024-13-01 00:00:00");
    let (run, action) = update_exif_date(run, Event::Exists(true));
    assert!(matches!(action, Action::Stop));
    let error = failure(run);
    assert_eq!(error.kind(), ErrorKind::InvalidDate);
    assert!(matches!(error, UpdateError::InvalidDate(DateError::Format)));
    assert!(error.message().contains("Invalid datetime format"));
}

#[test]
fn platform_without_the_service_fails_the_run() {
    let run = started("photo.jpg", "2024-01-15 14:30:00");
    let (run, _) = update_exif_date(run, Event::Exists(true));
    let (run, action) = update_exif_date(run, Event::PathResolved("/home/me/photo.jpg".to_string()));
    assert!(matches!(action, Action::RunService(_)));
    let (run, action) = update_exif_date(run, Event::ServiceUnsupported);
    assert!(matches!(action, Action::Stop));
    let error = failure(run);
    assert_eq!(error.kind(), ErrorKind::ExternalServiceFailure);
    assert!(error.message().contains("install exiftool"));
}

#[test]
fn file_name_without_a_date_fails_the_run() {
    let run = started("photos/vacation.jpg", "filename");
    let (run, action) = update_exif_date(run, Event::Exists(true));
    assert!(matches!(action, Action::Stop));
    let error = failure(run);
    assert!(matches!(error, UpdateError::InvalidDate(DateError::Pattern)));
    assert_eq!(error.message(), "Filename does not start with YYYYMM format");
}

#[test]
fn file_name_out_of_range_fails_the_run() {
    let run = started("photos/202413_vacation.jpg", "filename");
    let (run, _) = update_exif_date(run, Event::Exists(true));
    let error = failure(run);
    assert!(matches!(error, UpdateError::InvalidDate(DateError::Range)));
}

#[test]
fn modified_time_is_read_once_the_file_exists() {
    let run = started("photo.jpg", "modified");
    let (run, action) = update_exif_date(run, Event::Exists(true));
    assert!(matches!(action, Action::ReadFileTime(FileTime::Modified)));
    assert!(matches!(run.phase, Phase::ReadingFileTime(FileTime::Modified)));
    assert_eq!(run.exit_code(), None);
    let read = Timestamp::new(2019, 8, 7, 6, 5, 4).unwrap();
    let (run, action) = update_exif_date(run, Event::FileTimeRead(read));
    assert!(matches!(action, Action::ResolvePath));
    let (_, action) = update_exif_date(run, Event::PathResolved("C:\\photo.jpg".to_string()));
    assert!(script_of(action).contains("$dateStr = '2019:08:07 06:05:04'\n"));
}

#[test]
fn created_time_is_read_once_the_file_exists() {
    let run = started("photo.jpg", "created");
    let (run, action) = update_exif_date(run, Event::Exists(true));
    assert!(matches!(action, Action::ReadFileTime(FileTime::Created)));
    let read = Timestamp::new(2001, 2, 3, 4, 5, 6).unwrap();
    let (run, action) = update_exif_date(run, Event::FileTimeRead(read));
    assert!(matches!(action, Action::ResolvePath));
    match run.phase {
        Phase::ResolvingPath(date) => assert_eq!(date, read),
        other => panic!("{:?}", other),
    }
}

#[test]
fn created_time_that_the_filesystem_lacks_fails_the_run() {
    let run = started("photo.jpg", "created");
    let (run, _) = update_exif_date(run, Event::Exists(true));
    let cause = "creation time is not available on this platform".to_string();
    let (run, action) = update_exif_date(run, Event::FileTimeUnavailable(cause));
    assert!(matches!(action, Action::Stop));
    let error = failure(run);
    assert_eq!(error.kind(), ErrorKind::MetadataUnavailable);
    assert_eq!(
        error.message(),
        "Failed to read created time: creation time is not available on this platform"
    );
}

#[test]
fn modified_time_that_cannot_be_read_fails_the_run() {
    let run = started("photo.jpg", "modified");
    let (run, _) = update_exif_date(run, Event::Exists(true));
    let (run, _) = update_exif_date(run, Event::FileTimeUnavailable("no".to_string()));
    assert_eq!(failure(run).message(), "Failed to read modified time: no");
}

#[test]
fn unreadable_metadata_fails_the_run() {
    let run = started("photo.jpg", "modified");
    let (run, _) = update_exif_date(run, Event::Exists(true));
    let (run, action) =
        update_exif_date(run, Event::MetadataUnreadable("permission denied".to_string()));
    assert!(matches!(action, Action::Stop));
    let error = failure(run);
    assert_eq!(error.kind(), ErrorKind::MetadataUnavailable);
    assert_eq!(error.message(), "Failed to read file metadata: permission denied");
}

#[test]
fn path_that_cannot_be_resolved_fails_the_run() {
    let run = started("photo.jpg", "2024-01-15 14:30:00");
    let (run, _) = update_exif_date(run, Event::Exists(true));
    let (run, action) = update_exif_date(run, Event::PathUnresolved("broken link".to_string()));
    assert!(matches!(action, Action::Stop));
    let error = failure(run);
    assert_eq!(error.kind(), ErrorKind::PathResolutionFailure);
    assert_eq!(error.message(), "Failed to resolve path: broken link");
}

#[test]
fn path_that_is_not_unicode_fails_the_run() {
    let run = started("photo.jpg", "2024-01-15 14:30:00");
    let (run, _) = update_exif_date(run, Event::Exists(true));
    let (run, action) = update_exif_date(run, Event::PathNotUnicode);
    assert!(matches!(action, Action::Stop));
    assert_eq!(failure(run).message(), "Invalid file path encoding");
}

#[test]
fn service_that_does_not_start_fails_the_run() {
    let run = started("photo.jpg", "2024-01-15 14:30:00");
    let (run, _) = update_exif_date(run, Event::Exists(true));
    let (run, _) = update_exif_date(run, Event::PathResolved("C:\\photo.jpg".to_string()));
    let (run, action) = update_exif_date(run, Event::ServiceNotStarted("not found".to_string()));
    assert!(matches!(action, Action::Stop));
    let error = failure(run);
    assert_eq!(error.kind(), ErrorKind::ExternalServiceFailure);
    assert_eq!(error.message(), "Failed to execute PowerShell: not found");
}

#[test]
fn service_that_reports_failure_fails_the_run_with_its_words() {
    let run = started("photo.jpg", "2024-01-15 14:30:00");
    let (run, _) = update_exif_date(run, Event::Exists(true));
    let (run, _) = update_exif_date(run, Event::PathResolved("C:\\photo.jpg".to_string()));
    let words = "Property cannot be found.\r\n".to_string();
    let (run, action) = update_exif_date(run, Event::ServiceExited(false, words));
    assert!(matches!(action, Action::Stop));
    let error = failure(run);
    assert_eq!(error.kind(), ErrorKind::ExternalServiceFailure);
    assert_eq!(error.message(), "PowerShell error: Property cannot be found.\r\n");
}

#[test]
fn service_that_reports_success_succeeds_whatever_it_wrote() {
    let run = started("photo.jpg", "2024-01-15 14:30:00");
    let (run, _) = update_exif_date(run, Event::Exists(true));
    let (run, _) = update_exif_date(run, Event::PathResolved("C:\\photo.jpg".to_string()));
    let (run, action) = update_exif_date(run, Event::ServiceExited(true, "warning".to_string()));
    assert!(matches!(action, Action::Stop));
    assert!(matches!(run.phase, Phase::Succeeded));
}

#[test]
fn script_is_written_for_the_resolved_path_not_the_given_one() {
    let run = started("photo.jpg", "2024-01-15 14:30:00");
    let (run, _) = update_exif_date(run, Event::Exists(true));
    let (run, action) = update_exif_date(run, Event::PathResolved("C:\\abs\\photo.jpg".to_string()));
    let script = script_of(action);
    assert_eq!(script.matches("'C:\\abs\\photo.jpg'").count(), 4);
    assert!(!script.contains("'photo.jpg'"));
    assert_eq!(script, script_of(run.phase.action()));
}

#[test]
fn event_out_of_turn_changes_nothing() {
    let run = started("photo.jpg", "modified");
    let (run, action) = update_exif_date(run, Event::PathResolved("C:\\photo.jpg".to_string()));
    assert!(matches!(action, Action::CheckExists));
    assert!(matches!(run.phase, Phase::Unstarted));
    let (run, action) = update_exif_date(run, Event::ServiceExited(true, String::new()));
    assert!(matches!(action, Action::CheckExists));
    assert!(matches!(run.phase, Phase::Unstarted));
    let (run, action) = update_exif_date(run, Event::Exists(true));
    assert!(matches!(action, Action::ReadFileTime(FileTime::Modified)));
    let (run, action) = update_exif_date(run, Event::Exists(false));
    assert!(matches!(action, Action::ReadFileTime(FileTime::Modified)));
    let (run, action) = update_exif_date(run, Event::ServiceExited(true, String::new()));
    assert!(matches!(action, Action::ReadFileTime(FileTime::Modified)));
    assert!(matches!(run.phase, Phase::ReadingFileTime(FileTime::Modified)));
    assert!(run.into_outcome().is_none());
}

#[test]
fn run_that_is_over_stays_as_it_is() {
    let run = started("missing.jpg", "filename");
    let (run, _) = update_exif_date(run, Event::Exists(false));
    let (run, action) = update_exif_date(run, Event::Exists(true));
    assert!(matches!(action, Action::Stop));
    let (run, action) = update_exif_date(run, Event::ServiceExited(true, String::new()));
    assert!(matches!(action, Action::Stop));
    assert_eq!(failure(run).message(), "File not found: missing.jpg");

    let run = started("photo.jpg", "2024-01-15 14:30:00");
    let (run, _) = update_exif_date(run, Event::Exists(true));
    let (run, _) = update_exif_date(run, Event::PathResolved("C:\\photo.jpg".to_string()));
    let (run, _) = update_exif_date(run, Event::ServiceExited(true, String::new()));
    let (run, action) = update_exif_date(run, Event::ServiceExited(false, "late".to_string()));
    assert!(matches!(action, Action::Stop));
    assert!(matches!(run.phase, Phase::Succeeded));
}

#[test]
fn new_run_keeps_the_path_and_the_source() {
    let run = UpdateRun::new("photos/202403_vacation.jpg", "created");
    assert_eq!(run.target.path(), "photos/202403_vacation.jpg");
    assert_eq!(run.target.file_name(), Some("202403_vacation.jpg"));
    assert!(matches!(run.source, exif_date::source::DateSource::FromCreatedTime));
    assert_eq!(run.exit_code(), None);
}
