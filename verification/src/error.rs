//! What can go wrong, and how it is told to the user.

use vstd::prelude::*;
use crate::calendar::CalendarTime;
use crate::calendar::Timestamp;
use crate::source::FileTime;

verus! {

/// Told when the literal is no valid date.
pub const INVALID_FORMAT: &'static str =
    "Invalid datetime format. Expected format: YYYY-MM-DD HH:MM:SS or 'filename'/'modified'/'created'";

/// Told when the path has no final component.
pub const NO_FILE_NAME: &'static str = "Invalid filename";

/// Told when the file's name does not begin with six digits.
pub const NO_PATTERN: &'static str = "Filename does not start with YYYYMM format";

/// Told when the year or the month in the file's name is out of range.
pub const OUT_OF_RANGE: &'static str =
    "Invalid date in filename (year must be 1900-2100, month 1-12)";

/// Heads the path at which no file was found.
pub const NOT_FOUND: &'static str = "File not found: ";

/// Heads the cause for which the file's metadata could not be read.
pub const METADATA_UNREADABLE: &'static str = "Failed to read file metadata: ";

/// Heads the cause for which the time of last change could not be had.
pub const MODIFIED_UNAVAILABLE: &'static str = "Failed to read modified time: ";

/// Heads the cause for which the time of creation could not be had.
pub const CREATED_UNAVAILABLE: &'static str = "Failed to read created time: ";

/// Heads the cause for which the path could not be made absolute.
pub const PATH_UNRESOLVED: &'static str = "Failed to resolve path: ";

/// Told when the absolute path is not Unicode text.
pub const PATH_NOT_UNICODE: &'static str = "Invalid file path encoding";

/// Told on a platform without the imaging service; names a tool to install
/// in its place.
pub const SERVICE_UNSUPPORTED: &'static str =
    "This tool currently only supports Windows. For other platforms, install exiftool.";

/// Heads the cause for which the imaging service could not be started.
pub const SERVICE_NOT_STARTED: &'static str = "Failed to execute PowerShell: ";

/// Heads what the imaging service wrote to its error stream.
pub const SERVICE_FAILED: &'static str = "PowerShell error: ";

/// Why no date could be had from the date source.
#[derive(Clone, Copy, Debug, PartialEq, Eq, Structural)]
pub enum DateError {
    /// The literal is not a valid `YYYY-MM-DD HH:MM:SS`.
    Format,
    /// The path has no final component to read a date from.
    NoFileName,
    /// The file's name does not begin with six decimal digits.
    Pattern,
    /// The year is outside 1900 to 2100, or the month outside 1 to 12.
    Range,
}

impl DateError {
    /// The line that tells the user of this error.
    pub open spec fn message_text(self) -> Seq<char> {
        match self {
            DateError::Format => INVALID_FORMAT@,
            DateError::NoFileName => NO_FILE_NAME@,
            DateError::Pattern => NO_PATTERN@,
            DateError::Range => OUT_OF_RANGE@,
        }
    }

    /// The line that tells the user of this error.
    pub fn message(&self) -> (line: &'static str)
        ensures
            line@ == self.message_text(),
    {
        match self {
            DateError::Format => INVALID_FORMAT,
            DateError::NoFileName => NO_FILE_NAME,
            DateError::Pattern => NO_PATTERN,
            DateError::Range => OUT_OF_RANGE,
        }
    }
}

/// The model of a date that was read, or of the error that came instead.
pub open spec fn date_outcome(read: Result<Timestamp, DateError>) -> Result<
    CalendarTime,
    DateError,
> {
    match read {
        Ok(date) => Ok(date@),
        Err(error) => Err(error),
    }
}

/// The classes of failure of a run.
#[derive(Clone, Copy, Debug, PartialEq, Eq, Structural)]
pub enum ErrorKind {
    /// The target file does not exist.
    NotFound,
    /// The date source gives no date.
    InvalidDate,
    /// The filesystem does not give the time that was asked for.
    MetadataUnavailable,
    /// The path could not be made absolute.
    PathResolutionFailure,
    /// The imaging service is missing, did not start, or failed.
    ExternalServiceFailure,
}

/// The model of an [`UpdateError`].
pub enum UpdateErrorView {
    NotFound(Seq<char>),
    InvalidDate(DateError),
    MetadataUnreadable(Seq<char>),
    FileTimeUnavailable(FileTime, Seq<char>),
    PathUnresolved(Seq<char>),
    PathNotUnicode,
    ServiceUnsupported,
    ServiceNotStarted(Seq<char>),
    ServiceFailed(Seq<char>),
}

/// Why a run failed. Every failure ends the run.
#[derive(Clone, Debug)]
pub enum UpdateError {
    /// No file exists at the path, which is held here.
    NotFound(String),
    /// The date source gives no date.
    InvalidDate(DateError),
    /// The file's metadata could not be read; the cause is held here.
    MetadataUnreadable(String),
    /// The filesystem does not give this time of the file; the cause is held
    /// here.
    FileTimeUnavailable(FileTime, String),
    /// The path could not be made absolute; the cause is held here.
    PathUnresolved(String),
    /// The absolute path is not Unicode text.
    PathNotUnicode,
    /// The platform has no imaging service.
    ServiceUnsupported,
    /// The imaging service could not be started; the cause is held here.
    ServiceNotStarted(String),
    /// The imaging service reported failure; what it wrote to its error
    /// stream is held here.
    ServiceFailed(String),
}

impl View for UpdateError {
    type V = UpdateErrorView;

    open spec fn view(&self) -> UpdateErrorView {
        match self {
            UpdateError::NotFound(path) => UpdateErrorView::NotFound(path@),
            UpdateError::InvalidDate(error) => UpdateErrorView::InvalidDate(*error),
            UpdateError::MetadataUnreadable(cause) => UpdateErrorView::MetadataUnreadable(cause@),
            UpdateError::FileTimeUnavailable(time, cause) => UpdateErrorView::FileTimeUnavailable(
                *time,
                cause@,
            ),
            UpdateError::PathUnresolved(cause) => UpdateErrorView::PathUnresolved(cause@),
            UpdateError::PathNotUnicode => UpdateErrorView::PathNotUnicode,
            UpdateError::ServiceUnsupported => UpdateErrorView::ServiceUnsupported,
            UpdateError::ServiceNotStarted(cause) => UpdateErrorView::ServiceNotStarted(cause@),
            UpdateError::ServiceFailed(output) => UpdateErrorView::ServiceFailed(output@),
        }
    }
}

impl UpdateErrorView {
    /// The class of this failure.
    pub open spec fn kind(self) -> ErrorKind {
        match self {
            UpdateErrorView::NotFound(_) => ErrorKind::NotFound,
            UpdateErrorView::InvalidDate(_) => ErrorKind::InvalidDate,
            UpdateErrorView::MetadataUnreadable(_) => ErrorKind::MetadataUnavailable,
            UpdateErrorView::FileTimeUnavailable(_, _) => ErrorKind::MetadataUnavailable,
            UpdateErrorView::PathUnresolved(_) => ErrorKind::PathResolutionFailure,
            UpdateErrorView::PathNotUnicode => ErrorKind::PathResolutionFailure,
            UpdateErrorView::ServiceUnsupported => ErrorKind::ExternalServiceFailure,
            UpdateErrorView::ServiceNotStarted(_) => ErrorKind::ExternalServiceFailure,
            UpdateErrorView::ServiceFailed(_) => ErrorKind::ExternalServiceFailure,
        }
    }

    /// The line that tells the user of this failure: what failed, and the
    /// cause as it was reported, word for word.
    pub open spec fn message_text(self) -> Seq<char> {
        match self {
            UpdateErrorView::NotFound(path) => NOT_FOUND@ + path,
            UpdateErrorView::InvalidDate(error) => error.message_text(),
            UpdateErrorView::MetadataUnreadable(cause) => METADATA_UNREADABLE@ + cause,
            UpdateErrorView::FileTimeUnavailable(time, cause) => match time {
                FileTime::Modified => MODIFIED_UNAVAILABLE@ + cause,
                FileTime::Created => CREATED_UNAVAILABLE@ + cause,
            },
            UpdateErrorView::PathUnresolved(cause) => PATH_UNRESOLVED@ + cause,
            UpdateErrorView::PathNotUnicode => PATH_NOT_UNICODE@,
            UpdateErrorView::ServiceUnsupported => SERVICE_UNSUPPORTED@,
            UpdateErrorView::ServiceNotStarted(cause) => SERVICE_NOT_STARTED@ + cause,
            UpdateErrorView::ServiceFailed(output) => SERVICE_FAILED@ + output,
        }
    }
}

impl UpdateError {
    /// The class of this failure.
    pub fn kind(&self) -> (kind: ErrorKind)
        ensures
            kind == self@.kind(),
    {
        match self {
            UpdateError::NotFound(_) => ErrorKind::NotFound,
            UpdateError::InvalidDate(_) => ErrorKind::InvalidDate,
            UpdateError::MetadataUnreadable(_) => ErrorKind::MetadataUnavailable,
            UpdateError::FileTimeUnavailable(_, _) => ErrorKind::MetadataUnavailable,
            UpdateError::PathUnresolved(_) => ErrorKind::PathResolutionFailure,
            UpdateError::PathNotUnicode => ErrorKind::PathResolutionFailure,
            UpdateError::ServiceUnsupported => ErrorKind::ExternalServiceFailure,
            UpdateError::ServiceNotStarted(_) => ErrorKind::ExternalServiceFailure,
            UpdateError::ServiceFailed(_) => ErrorKind::ExternalServiceFailure,
        }
    }

    /// The line that tells the user of this failure.
    pub fn message(&self) -> (line: String)
        ensures
            line@ == self@.message_text(),
    {
        match self {
            UpdateError::NotFound(path) => NOT_FOUND.to_owned().concat(path.as_str()),
            UpdateError::InvalidDate(error) => error.message().to_owned(),
            UpdateError::MetadataUnreadable(cause) => METADATA_UNREADABLE.to_owned().concat(
                cause.as_str(),
            ),
            UpdateError::FileTimeUnavailable(time, cause) => match time {
                FileTime::Modified => MODIFIED_UNAVAILABLE.to_owned().concat(cause.as_str()),
                FileTime::Created => CREATED_UNAVAILABLE.to_owned().concat(cause.as_str()),
            },
            UpdateError::PathUnresolved(cause) => PATH_UNRESOLVED.to_owned().concat(
                cause.as_str(),
            ),
            UpdateError::PathNotUnicode => PATH_NOT_UNICODE.to_owned(),
            UpdateError::ServiceUnsupported => SERVICE_UNSUPPORTED.to_owned(),
            UpdateError::ServiceNotStarted(cause) => SERVICE_NOT_STARTED.to_owned().concat(
                cause.as_str(),
            ),
            UpdateError::ServiceFailed(output) => SERVICE_FAILED.to_owned().concat(
                output.as_str(),
            ),
        }
    }
}

} // verus!
