//! Where the date comes from.

use vstd::prelude::*;
use crate::calendar::literal_text;
use crate::calendar::CalendarTime;
use crate::calendar::Timestamp;
use crate::error::DateError;
use crate::filename::extract_date_from_filename;
use crate::filename::target_file_date;
use crate::literal::has_literal_shape;
use crate::literal::lemma_literal_round_trip;
use crate::literal::literal_date;
use crate::literal::literal_fields;
use crate::literal::parse_literal;
use crate::target::TargetFile;
use crate::target::TargetFileView;

verus! {

/// One of the two times that a filesystem keeps of a file.
#[derive(Clone, Copy, Debug, PartialEq, Eq, Structural)]
pub enum FileTime {
    /// When the file was last changed.
    Modified,
    /// When the file was made.
    Created,
}

/// The model of a [`DateSource`].
pub enum DateSourceView {
    Literal(Seq<char>),
    FromFilename,
    FromModifiedTime,
    FromCreatedTime,
}

/// Where the date comes from: it is written out, or read off the file's
/// name, or it is one of the file's times.
#[derive(Clone, Debug)]
pub enum DateSource {
    /// The date is this text, to be read as `YYYY-MM-DD HH:MM:SS`.
    Literal(String),
    /// The date is the month that the file's name begins with.
    FromFilename,
    /// The date is when the file was last changed.
    FromModifiedTime,
    /// The date is when the file was made.
    FromCreatedTime,
}

impl View for DateSource {
    type V = DateSourceView;

    open spec fn view(&self) -> DateSourceView {
        match self {
            DateSource::Literal(text) => DateSourceView::Literal(text@),
            DateSource::FromFilename => DateSourceView::FromFilename,
            DateSource::FromModifiedTime => DateSourceView::FromModifiedTime,
            DateSource::FromCreatedTime => DateSourceView::FromCreatedTime,
        }
    }
}

/// The source that an argument selects. The three keywords are matched
/// exactly and with their case; anything else is taken for a literal.
pub open spec fn date_source_of(argument: Seq<char>) -> DateSourceView {
    if argument == "filename"@ {
        DateSourceView::FromFilename
    } else if argument == "modified"@ {
        DateSourceView::FromModifiedTime
    } else if argument == "created"@ {
        DateSourceView::FromCreatedTime
    } else {
        DateSourceView::Literal(argument)
    }
}

/// How far a date source can be resolved without the filesystem.
pub enum ResolutionView {
    /// The date is known.
    Resolved(CalendarTime),
    /// The date is one of the file's times, which is still to be read.
    Pending(FileTime),
    /// The source gives no date.
    Failed(DateError),
}

/// How far a date source can be resolved without the filesystem.
#[derive(Clone, Copy, Debug, PartialEq, Eq)]
pub enum Resolution {
    /// The date is known.
    Resolved(Timestamp),
    /// The date is one of the file's times, which is still to be read.
    Pending(FileTime),
    /// The source gives no date.
    Failed(DateError),
}

impl View for Resolution {
    type V = ResolutionView;

    open spec fn view(&self) -> ResolutionView {
        match self {
            Resolution::Resolved(date) => ResolutionView::Resolved(date@),
            Resolution::Pending(time) => ResolutionView::Pending(*time),
            Resolution::Failed(error) => ResolutionView::Failed(*error),
        }
    }
}

/// What a date source resolves to for a target file.
pub open spec fn resolution(source: DateSourceView, target: TargetFileView) -> ResolutionView {
    match source {
        DateSourceView::Literal(text) => match literal_date(text) {
            Some(date) => ResolutionView::Resolved(date),
            None => ResolutionView::Failed(DateError::Format),
        },
        DateSourceView::FromFilename => match target_file_date(target) {
            Ok(date) => ResolutionView::Resolved(date),
            Err(error) => ResolutionView::Failed(error),
        },
        DateSourceView::FromModifiedTime => ResolutionView::Pending(FileTime::Modified),
        DateSourceView::FromCreatedTime => ResolutionView::Pending(FileTime::Created),
    }
}

impl DateSource {
    /// The source that `argument` selects.
    pub fn from_arg(argument: &str) -> (source: DateSource)
        ensures
            source@ == date_source_of(argument@),
    {
        let given = argument.to_owned();
        if given == "filename".to_owned() {
            DateSource::FromFilename
        } else if given == "modified".to_owned() {
            DateSource::FromModifiedTime
        } else if given == "created".to_owned() {
            DateSource::FromCreatedTime
        } else {
            DateSource::Literal(given)
        }
    }
}

/// Resolves the date source for `target` as far as that can be done without
/// reading the filesystem.
pub fn resolve(source: &DateSource, target: &TargetFile) -> (resolved: Resolution)
    ensures
        resolved@ == resolution(source@, target@),
{
    match source {
        DateSource::Literal(text) => match parse_literal(text.as_str()) {
            Ok(date) => Resolution::Resolved(date),
            Err(error) => Resolution::Failed(error),
        },
        DateSource::FromFilename => match extract_date_from_filename(target) {
            Ok(date) => Resolution::Resolved(date),
            Err(error) => Resolution::Failed(error),
        },
        DateSource::FromModifiedTime => Resolution::Pending(FileTime::Modified),
        DateSource::FromCreatedTime => Resolution::Pending(FileTime::Created),
    }
}

/// Each keyword selects its own source.
pub proof fn lemma_keywords_select_their_sources()
    ensures
        date_source_of("filename"@) == DateSourceView::FromFilename,
        date_source_of("modified"@) == DateSourceView::FromModifiedTime,
        date_source_of("created"@) == DateSourceView::FromCreatedTime,
{
    reveal_strlit("filename");
    reveal_strlit("modified");
    reveal_strlit("created");
    assert("modified"@[0] != "filename"@[0]);
    assert("created"@.len() != "filename"@.len());
    assert("created"@.len() != "modified"@.len());
}

/// A valid literal is no keyword: it resolves to the date it names,
/// whatever the target, and that date written back is the literal.
pub proof fn lemma_valid_literal_resolves(argument: Seq<char>, target: TargetFileView)
    requires
        has_literal_shape(argument),
        literal_fields(argument).is_valid(),
    ensures
        date_source_of(argument) == DateSourceView::Literal(argument),
        resolution(date_source_of(argument), target) == ResolutionView::Resolved(
            literal_fields(argument),
        ),
        literal_text(literal_fields(argument)) == argument,
{
    reveal_strlit("filename");
    reveal_strlit("modified");
    reveal_strlit("created");
    lemma_literal_round_trip(argument);
}

/// An argument that is none of the three keywords and no valid literal
/// resolves to the format error, whatever the target.
pub proof fn lemma_unreadable_argument_is_invalid(argument: Seq<char>, target: TargetFileView)
    requires
        argument != "filename"@,
        argument != "modified"@,
        argument != "created"@,
        literal_date(argument) is None,
    ensures
        resolution(date_source_of(argument), target) == ResolutionView::Failed(DateError::Format),
{
}

/// An argument that is none of the three keywords resolves to a date exactly
/// when it is a valid literal, and then to the date it names.
pub proof fn lemma_literal_argument_resolves(argument: Seq<char>, target: TargetFileView)
    requires
        argument != "filename"@,
        argument != "modified"@,
        argument != "created"@,
    ensures
        resolution(date_source_of(argument), target) is Resolved <==> literal_date(argument)
            is Some,
        literal_date(argument) matches Some(date) ==> resolution(date_source_of(argument), target)
            == ResolutionView::Resolved(date),
{
}

} // verus!
