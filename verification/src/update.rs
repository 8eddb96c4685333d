//! A run of the tool as a machine that decides and leaves the doing to its
//! caller.
//!
//! The caller performs the action that the run is waiting for, reports what
//! came of it as an event, and goes on until the action is to stop.

use vstd::prelude::*;
use crate::calendar::exif_text;
use crate::calendar::CalendarTime;
use crate::calendar::Timestamp;
use crate::cli::EXIT_FAILURE;
use crate::cli::EXIT_SUCCESS;
use crate::error::DateError;
use crate::error::ErrorKind;
use crate::error::SERVICE_UNSUPPORTED;
use crate::error::UpdateError;
use crate::error::UpdateErrorView;
use crate::script::build_command;
use crate::script::service_command;
use crate::script::ServiceCommand;
use crate::script::ServiceCommandView;
use crate::digits::four_digits;
use crate::digits::two_digits;
use crate::filename::first_of_month;
use crate::filename::lemma_dated_file_name;
use crate::literal::has_literal_shape;
use crate::literal::lemma_literal_tag_text;
use crate::literal::literal_date;
use crate::literal::literal_fields;
use crate::source::date_source_of;
use crate::source::lemma_valid_literal_resolves;
use crate::source::resolution;
use crate::source::resolve;
use crate::source::DateSource;
use crate::source::DateSourceView;
use crate::source::FileTime;
use crate::source::Resolution;
use crate::source::ResolutionView;
use crate::target::TargetFile;
use crate::target::TargetFileView;

verus! {

/// The model of a [`Phase`].
pub enum PhaseView {
    Unstarted,
    ReadingFileTime(FileTime),
    ResolvingPath(CalendarTime),
    Rewriting(ServiceCommandView),
    Succeeded,
    Failed(UpdateErrorView),
}

/// How far a run has come. A run is unstarted until the target is known to
/// exist, then in progress through up to three steps, and ends as succeeded
/// or failed.
#[derive(Debug)]
pub enum Phase {
    /// Nothing is known of the target yet.
    Unstarted,
    /// The target exists; the date is this time of the file, still to be
    /// read.
    ReadingFileTime(FileTime),
    /// The date is known; the path is still to be made absolute.
    ResolvingPath(Timestamp),
    /// The imaging service is to run this command.
    Rewriting(ServiceCommand),
    /// The service has replaced the file.
    Succeeded,
    /// The run has failed, and nothing more is done.
    Failed(UpdateError),
}

impl View for Phase {
    type V = PhaseView;

    open spec fn view(&self) -> PhaseView {
        match self {
            Phase::Unstarted => PhaseView::Unstarted,
            Phase::ReadingFileTime(time) => PhaseView::ReadingFileTime(*time),
            Phase::ResolvingPath(date) => PhaseView::ResolvingPath(date@),
            Phase::Rewriting(command) => PhaseView::Rewriting(command@),
            Phase::Succeeded => PhaseView::Succeeded,
            Phase::Failed(error) => PhaseView::Failed(error@),
        }
    }
}

/// The model of an [`Action`].
pub enum ActionView {
    CheckExists,
    ReadFileTime(FileTime),
    ResolvePath,
    RunService(ServiceCommandView),
    Stop,
}

/// What the caller is to do next.
#[derive(Debug)]
pub enum Action {
    /// Find out whether a file exists at the target's path.
    CheckExists,
    /// Read this time of the target file, in local time.
    ReadFileTime(FileTime),
    /// Make the target's path absolute.
    ResolvePath,
    /// Run this command to its end and collect its error stream.
    RunService(ServiceCommand),
    /// Nothing: the run is over.
    Stop,
}

impl View for Action {
    type V = ActionView;

    open spec fn view(&self) -> ActionView {
        match self {
            Action::CheckExists => ActionView::CheckExists,
            Action::ReadFileTime(time) => ActionView::ReadFileTime(*time),
            Action::ResolvePath => ActionView::ResolvePath,
            Action::RunService(command) => ActionView::RunService(command@),
            Action::Stop => ActionView::Stop,
        }
    }
}

/// The model of an [`Event`].
pub enum EventView {
    Exists(bool),
    FileTimeRead(CalendarTime),
    MetadataUnreadable(Seq<char>),
    FileTimeUnavailable(Seq<char>),
    PathResolved(Seq<char>),
    PathUnresolved(Seq<char>),
    PathNotUnicode,
    ServiceUnsupported,
    ServiceNotStarted(Seq<char>),
    ServiceExited(bool, Seq<char>),
}

/// What came of an action.
#[derive(Debug)]
pub enum Event {
    /// Whether a file exists at the target's path.
    Exists(bool),
    /// The time of the file that was asked for.
    FileTimeRead(Timestamp),
    /// The file's metadata could not be read, and why.
    MetadataUnreadable(String),
    /// The filesystem does not give the time that was asked for, and why.
    FileTimeUnavailable(String),
    /// The absolute path of the target.
    PathResolved(String),
    /// The path could not be made absolute, and why.
    PathUnresolved(String),
    /// The absolute path is not Unicode text.
    PathNotUnicode,
    /// This platform has no imaging service.
    ServiceUnsupported,
    /// The command could not be started, and why.
    ServiceNotStarted(String),
    /// The command ran to its end: whether it reported success, and what it
    /// wrote to its error stream.
    ServiceExited(bool, String),
}

impl View for Event {
    type V = EventView;

    open spec fn view(&self) -> EventView {
        match self {
            Event::Exists(exists) => EventView::Exists(*exists),
            Event::FileTimeRead(date) => EventView::FileTimeRead(date@),
            Event::MetadataUnreadable(cause) => EventView::MetadataUnreadable(cause@),
            Event::FileTimeUnavailable(cause) => EventView::FileTimeUnavailable(cause@),
            Event::PathResolved(path) => EventView::PathResolved(path@),
            Event::PathUnresolved(cause) => EventView::PathUnresolved(cause@),
            Event::PathNotUnicode => EventView::PathNotUnicode,
            Event::ServiceUnsupported => EventView::ServiceUnsupported,
            Event::ServiceNotStarted(cause) => EventView::ServiceNotStarted(cause@),
            Event::ServiceExited(success, output) => EventView::ServiceExited(*success, output@),
        }
    }
}

/// The model of an [`UpdateRun`].
pub struct UpdateRunView {
    pub target: TargetFileView,
    pub source: DateSourceView,
    pub phase: PhaseView,
}

/// One run: the file, where its date comes from, and how far the run has
/// come.
#[derive(Debug)]
pub struct UpdateRun {
    pub target: TargetFile,
    pub source: DateSource,
    pub phase: Phase,
}

impl View for UpdateRun {
    type V = UpdateRunView;

    open spec fn view(&self) -> UpdateRunView {
        UpdateRunView { target: self.target@, source: self.source@, phase: self.phase@ }
    }
}

/// The action that a run in this phase waits for.
pub open spec fn pending_action(phase: PhaseView) -> ActionView {
    match phase {
        PhaseView::Unstarted => ActionView::CheckExists,
        PhaseView::ReadingFileTime(time) => ActionView::ReadFileTime(time),
        PhaseView::ResolvingPath(_) => ActionView::ResolvePath,
        PhaseView::Rewriting(command) => ActionView::RunService(command),
        PhaseView::Succeeded => ActionView::Stop,
        PhaseView::Failed(_) => ActionView::Stop,
    }
}

/// The phase that follows when `event` is reported to `run`.
///
/// The file must exist before anything else is looked at. Then the date is
/// resolved, from the file's time where the source asks for it; then the
/// path is made absolute; then the service runs on the absolute path. The
/// run succeeds only when the service reports success, and the first
/// failure ends it. An event that does not answer the pending action
/// changes nothing.
pub open spec fn next_phase(run: UpdateRunView, event: EventView) -> PhaseView {
    match (run.phase, event) {
        (PhaseView::Unstarted, EventView::Exists(false)) => PhaseView::Failed(
            UpdateErrorView::NotFound(run.target.path),
        ),
        (PhaseView::Unstarted, EventView::Exists(true)) => match resolution(
            run.source,
            run.target,
        ) {
            ResolutionView::Resolved(date) => PhaseView::ResolvingPath(date),
            ResolutionView::Pending(time) => PhaseView::ReadingFileTime(time),
            ResolutionView::Failed(error) => PhaseView::Failed(UpdateErrorView::InvalidDate(error)),
        },
        (PhaseView::ReadingFileTime(_), EventView::FileTimeRead(date)) => PhaseView::ResolvingPath(
            date,
        ),
        (PhaseView::ReadingFileTime(_), EventView::MetadataUnreadable(cause)) => PhaseView::Failed(
            UpdateErrorView::MetadataUnreadable(cause),
        ),
        (PhaseView::ReadingFileTime(time), EventView::FileTimeUnavailable(cause)) =>
            PhaseView::Failed(UpdateErrorView::FileTimeUnavailable(time, cause)),
        (PhaseView::ResolvingPath(date), EventView::PathResolved(path)) => PhaseView::Rewriting(
            service_command(path, exif_text(date)),
        ),
        (PhaseView::ResolvingPath(_), EventView::PathUnresolved(cause)) => PhaseView::Failed(
            UpdateErrorView::PathUnresolved(cause),
        ),
        (PhaseView::ResolvingPath(_), EventView::PathNotUnicode) => PhaseView::Failed(
            UpdateErrorView::PathNotUnicode,
        ),
        (PhaseView::Rewriting(_), EventView::ServiceUnsupported) => PhaseView::Failed(
            UpdateErrorView::ServiceUnsupported,
        ),
        (PhaseView::Rewriting(_), EventView::ServiceNotStarted(cause)) => PhaseView::Failed(
            UpdateErrorView::ServiceNotStarted(cause),
        ),
        (PhaseView::Rewriting(_), EventView::ServiceExited(true, _)) => PhaseView::Succeeded,
        (PhaseView::Rewriting(_), EventView::ServiceExited(false, output)) => PhaseView::Failed(
            UpdateErrorView::ServiceFailed(output),
        ),
        (phase, _) => phase,
    }
}

/// The run after `event`: the same file and source, in the next phase.
pub open spec fn step(run: UpdateRunView, event: EventView) -> UpdateRunView {
    UpdateRunView { target: run.target, source: run.source, phase: next_phase(run, event) }
}

/// The run after a sequence of events, one step for each in turn.
pub open spec fn run_through(run: UpdateRunView, events: Seq<EventView>) -> UpdateRunView
    decreases events.len(),
{
    if events.len() == 0 {
        run
    } else {
        run_through(step(run, events[0]), events.drop_first())
    }
}

impl Phase {
    /// The action that a run in this phase waits for.
    pub fn action(&self) -> (action: Action)
        ensures
            action@ == pending_action(self@),
    {
        match self {
            Phase::Unstarted => Action::CheckExists,
            Phase::ReadingFileTime(time) => Action::ReadFileTime(*time),
            Phase::ResolvingPath(_) => Action::ResolvePath,
            Phase::Rewriting(command) => Action::RunService(command.clone()),
            Phase::Succeeded => Action::Stop,
            Phase::Failed(_) => Action::Stop,
        }
    }
}

impl PhaseView {
    /// The run is over.
    pub open spec fn is_finished(self) -> bool {
        self is Succeeded || self is Failed
    }

    /// How far the phase lies along a run: a run passes through its phases in
    /// this order, leaving some out.
    pub open spec fn progress(self) -> nat {
        match self {
            PhaseView::Unstarted => 0,
            PhaseView::ReadingFileTime(_) => 1,
            PhaseView::ResolvingPath(_) => 2,
            PhaseView::Rewriting(_) => 3,
            PhaseView::Succeeded => 4,
            PhaseView::Failed(_) => 4,
        }
    }

    /// The exit code of a process whose run ended in this phase: zero after
    /// success and after nothing else.
    pub open spec fn exit_code(self) -> Option<i32> {
        match self {
            PhaseView::Succeeded => Some(EXIT_SUCCESS),
            PhaseView::Failed(_) => Some(EXIT_FAILURE),
            _ => None,
        }
    }
}

impl UpdateRun {
    /// The exit code of the process, once the run is over.
    pub fn exit_code(&self) -> (code: Option<i32>)
        ensures
            code == self@.phase.exit_code(),
    {
        match &self.phase {
            Phase::Succeeded => Some(EXIT_SUCCESS),
            Phase::Failed(_) => Some(EXIT_FAILURE),
            _ => None,
        }
    }

    /// How the run ended, once it is over.
    pub fn into_outcome(self) -> (outcome: Option<Result<(), UpdateError>>)
        ensures
            match outcome {
                Some(Ok(_)) => self@.phase == PhaseView::Succeeded,
                Some(Err(error)) => self@.phase == PhaseView::Failed(error@),
                None => !self@.phase.is_finished(),
            },
    {
        match self.phase {
            Phase::Succeeded => Some(Ok(())),
            Phase::Failed(error) => Some(Err(error)),
            _ => None,
        }
    }

    /// A run that has not started, for the file at `file_path` and the date
    /// source that `date_source` selects.
    pub fn new(file_path: &str, date_source: &str) -> (run: UpdateRun)
        ensures
            run@.target.path == file_path@,
            run@.source == date_source_of(date_source@),
            run@.phase == PhaseView::Unstarted,
    {
        UpdateRun {
            target: TargetFile::new(file_path),
            source: DateSource::from_arg(date_source),
            phase: Phase::Unstarted,
        }
    }
}

/// Takes a run one step on: reports `event` to it and says what to do next.
pub fn update_exif_date(run: UpdateRun, event: Event) -> (next: (UpdateRun, Action))
    ensures
        next.0@ == step(run@, event@),
        next.1@ == pending_action(next.0@.phase),
{
    let UpdateRun { target, source, phase } = run;
    let phase = match (phase, event) {
        (Phase::Unstarted, Event::Exists(false)) => Phase::Failed(
            UpdateError::NotFound(target.path().to_owned()),
        ),
        (Phase::Unstarted, Event::Exists(true)) => match resolve(&source, &target) {
            Resolution::Resolved(date) => Phase::ResolvingPath(date),
            Resolution::Pending(time) => Phase::ReadingFileTime(time),
            Resolution::Failed(error) => Phase::Failed(UpdateError::InvalidDate(error)),
        },
        (Phase::ReadingFileTime(_), Event::FileTimeRead(date)) => Phase::ResolvingPath(date),
        (Phase::ReadingFileTime(_), Event::MetadataUnreadable(cause)) => Phase::Failed(
            UpdateError::MetadataUnreadable(cause),
        ),
        (Phase::ReadingFileTime(time), Event::FileTimeUnavailable(cause)) => Phase::Failed(
            UpdateError::FileTimeUnavailable(time, cause),
        ),
        (Phase::ResolvingPath(date), Event::PathResolved(path)) => Phase::Rewriting(
            build_command(path.as_str(), &date),
        ),
        (Phase::ResolvingPath(_), Event::PathUnresolved(cause)) => Phase::Failed(
            UpdateError::PathUnresolved(cause),
        ),
        (Phase::ResolvingPath(_), Event::PathNotUnicode) => Phase::Failed(
            UpdateError::PathNotUnicode,
        ),
        (Phase::Rewriting(_), Event::ServiceUnsupported) => Phase::Failed(
            UpdateError::ServiceUnsupported,
        ),
        (Phase::Rewriting(_), Event::ServiceNotStarted(cause)) => Phase::Failed(
            UpdateError::ServiceNotStarted(cause),
        ),
        (Phase::Rewriting(_), Event::ServiceExited(true, _)) => Phase::Succeeded,
        (Phase::Rewriting(_), Event::ServiceExited(false, output)) => Phase::Failed(
            UpdateError::ServiceFailed(output),
        ),
        (phase, _) => phase,
    };
    let action = phase.action();
    (UpdateRun { target, source, phase }, action)
}

/// A file that does not exist ends the run as not found, whatever the date
/// source, and before anything else is looked at: a run that has not started
/// waits for nothing but the check that the file exists, and the report that
/// it does not exist is the end.
pub proof fn lemma_missing_file_is_not_found(run: UpdateRunView)
    requires
        run.phase == PhaseView::Unstarted,
    ensures
        pending_action(run.phase) == ActionView::CheckExists,
        step(run, EventView::Exists(false)).phase == PhaseView::Failed(
            UpdateErrorView::NotFound(run.target.path),
        ),
        pending_action(step(run, EventView::Exists(false)).phase) == ActionView::Stop,
{
}

/// Once the file is reported missing, nothing that is reported afterwards
/// changes how the run ends.
pub proof fn lemma_missing_file_ends_the_run(run: UpdateRunView, events: Seq<EventView>)
    requires
        run.phase == PhaseView::Unstarted,
        events.len() > 0,
        events[0] == EventView::Exists(false),
    ensures
        run_through(run, events).phase == PhaseView::Failed(
            UpdateErrorView::NotFound(run.target.path),
        ),
{
    lemma_finished_run_stays_finished(step(run, events[0]), events.drop_first());
}

/// Until the file has been reported to exist, the run asks for nothing but
/// the check that it exists: no time of the file is read, no path resolved
/// and no service run for a file that was not found.
pub proof fn lemma_nothing_before_the_file_exists(run: UpdateRunView, events: Seq<EventView>)
    requires
        run.phase == PhaseView::Unstarted,
        !events.contains(EventView::Exists(true)),
    ensures
        run_through(run, events).phase == PhaseView::Unstarted || run_through(run, events).phase
            == PhaseView::Failed(UpdateErrorView::NotFound(run.target.path)),
        pending_action(run_through(run, events).phase) == ActionView::CheckExists
            || pending_action(run_through(run, events).phase) == ActionView::Stop,
    decreases events.len(),
{
    if events.len() > 0 {
        let rest = events.drop_first();
        assert(events.contains(events[0]));
        assert forall|event: EventView| rest.contains(event) implies events.contains(event) by {
            let at = choose|at: int| 0 <= at < rest.len() && rest[at] == event;
            assert(events[at + 1] == event);
        }
        if events[0] == EventView::Exists(false) {
            lemma_finished_run_stays_finished(step(run, events[0]), rest);
        } else {
            assert(step(run, events[0]) == run);
            lemma_nothing_before_the_file_exists(run, rest);
        }
    }
}

/// An argument that is none of the three keywords and no valid literal
/// fails the run as an invalid date, as soon as the file is known to exist.
pub proof fn lemma_unreadable_argument_fails_the_run(run: UpdateRunView, argument: Seq<char>)
    requires
        run.phase == PhaseView::Unstarted,
        run.source == date_source_of(argument),
        argument != "filename"@,
        argument != "modified"@,
        argument != "created"@,
        literal_date(argument) is None,
    ensures
        step(run, EventView::Exists(true)).phase == PhaseView::Failed(
            UpdateErrorView::InvalidDate(DateError::Format),
        ),
        UpdateErrorView::InvalidDate(DateError::Format).kind() == ErrorKind::InvalidDate,
{
}

/// A run with a valid literal goes all the way: once the file exists the
/// path is asked for, the service is then to run the script for the resolved
/// path and for the literal with colons in place of its hyphens, and the
/// service's success is the run's.
pub proof fn lemma_literal_run(
    run: UpdateRunView,
    literal: Seq<char>,
    path: Seq<char>,
    output: Seq<char>,
)
    requires
        run.phase == PhaseView::Unstarted,
        run.source == date_source_of(literal),
        has_literal_shape(literal),
        literal_fields(literal).is_valid(),
    ensures
        step(run, EventView::Exists(true)).phase == PhaseView::ResolvingPath(
            literal_fields(literal),
        ),
        run_through(run, seq![EventView::Exists(true), EventView::PathResolved(path)]).phase
            == PhaseView::Rewriting(
            service_command(path, literal.update(4, ':').update(7, ':')),
        ),
        run_through(
            run,
            seq![
                EventView::Exists(true),
                EventView::PathResolved(path),
                EventView::ServiceExited(true, output),
            ],
        ).phase == PhaseView::Succeeded,
{
    lemma_valid_literal_resolves(literal, run.target);
    lemma_literal_tag_text(literal);
    lemma_resolved_run(run, literal_fields(literal), path, output);
}

/// A run that takes the date from a file name `YYYYMM…`, with the year from
/// 1900 to 2100, goes all the way: the service is to run the script for the
/// resolved path and for midnight on the first day of that month.
pub proof fn lemma_file_name_run(
    run: UpdateRunView,
    year: int,
    month: int,
    rest: Seq<char>,
    path: Seq<char>,
    output: Seq<char>,
)
    requires
        run.phase == PhaseView::Unstarted,
        run.source == DateSourceView::FromFilename,
        run.target.file_name == Some(four_digits(year) + two_digits(month) + rest),
        1900 <= year <= 2100,
        1 <= month <= 12,
    ensures
        step(run, EventView::Exists(true)).phase == PhaseView::ResolvingPath(
            first_of_month(year, month),
        ),
        run_through(run, seq![EventView::Exists(true), EventView::PathResolved(path)]).phase
            == PhaseView::Rewriting(
            service_command(path, exif_text(first_of_month(year, month))),
        ),
        run_through(
            run,
            seq![
                EventView::Exists(true),
                EventView::PathResolved(path),
                EventView::ServiceExited(true, output),
            ],
        ).phase == PhaseView::Succeeded,
{
    lemma_dated_file_name(year, month, rest);
    lemma_resolved_run(run, first_of_month(year, month), path, output);
}

/// A run that takes the date from a time of the file goes all the way once
/// the time is read: the service is to run the script for the resolved path
/// and for that time.
pub proof fn lemma_file_time_run(
    run: UpdateRunView,
    date: CalendarTime,
    path: Seq<char>,
    output: Seq<char>,
)
    requires
        run.phase == PhaseView::Unstarted,
        run.source == DateSourceView::FromModifiedTime || run.source
            == DateSourceView::FromCreatedTime,
    ensures
        step(run, EventView::Exists(true)).phase == PhaseView::ReadingFileTime(
            if run.source == DateSourceView::FromModifiedTime {
                FileTime::Modified
            } else {
                FileTime::Created
            },
        ),
        run_through(
            run,
            seq![
                EventView::Exists(true),
                EventView::FileTimeRead(date),
                EventView::PathResolved(path),
            ],
        ).phase == PhaseView::Rewriting(service_command(path, exif_text(date))),
        run_through(
            run,
            seq![
                EventView::Exists(true),
                EventView::FileTimeRead(date),
                EventView::PathResolved(path),
                EventView::ServiceExited(true, output),
            ],
        ).phase == PhaseView::Succeeded,
{
    let events = seq![
        EventView::Exists(true),
        EventView::FileTimeRead(date),
        EventView::PathResolved(path),
        EventView::ServiceExited(true, output),
    ];
    let short = seq![
        EventView::Exists(true),
        EventView::FileTimeRead(date),
        EventView::PathResolved(path),
    ];
    reveal_with_fuel(run_through, 5);
    assert(events.drop_first() =~= seq![
        EventView::FileTimeRead(date),
        EventView::PathResolved(path),
        EventView::ServiceExited(true, output),
    ]);
    assert(events.drop_first().drop_first() =~= seq![
        EventView::PathResolved(path),
        EventView::ServiceExited(true, output),
    ]);
    assert(events.drop_first().drop_first().drop_first() =~= seq![
        EventView::ServiceExited(true, output),
    ]);
    assert(short.drop_first() =~= seq![
        EventView::FileTimeRead(date),
        EventView::PathResolved(path),
    ]);
    assert(short.drop_first().drop_first() =~= seq![EventView::PathResolved(path)]);
}

/// On a platform without the imaging service the run fails, with exit code
/// one and the advice to install another tool.
pub proof fn lemma_unsupported_platform_fails_the_run(run: UpdateRunView)
    requires
        run.phase is Rewriting,
    ensures
        step(run, EventView::ServiceUnsupported).phase == PhaseView::Failed(
            UpdateErrorView::ServiceUnsupported,
        ),
        step(run, EventView::ServiceUnsupported).phase.exit_code() == Some(1i32),
        UpdateErrorView::ServiceUnsupported.message_text() == SERVICE_UNSUPPORTED@,
        UpdateErrorView::ServiceUnsupported.kind() == ErrorKind::ExternalServiceFailure,
{
}

/// The rest of a run whose date resolves without the filesystem.
proof fn lemma_resolved_run(
    run: UpdateRunView,
    date: CalendarTime,
    path: Seq<char>,
    output: Seq<char>,
)
    requires
        run.phase == PhaseView::Unstarted,
        resolution(run.source, run.target) == ResolutionView::Resolved(date),
    ensures
        step(run, EventView::Exists(true)).phase == PhaseView::ResolvingPath(date),
        run_through(run, seq![EventView::Exists(true), EventView::PathResolved(path)]).phase
            == PhaseView::Rewriting(service_command(path, exif_text(date))),
        run_through(
            run,
            seq![
                EventView::Exists(true),
                EventView::PathResolved(path),
                EventView::ServiceExited(true, output),
            ],
        ).phase == PhaseView::Succeeded,
{
    let events = seq![
        EventView::Exists(true),
        EventView::PathResolved(path),
        EventView::ServiceExited(true, output),
    ];
    let short = seq![EventView::Exists(true), EventView::PathResolved(path)];
    reveal_with_fuel(run_through, 4);
    assert(events.drop_first() =~= seq![
        EventView::PathResolved(path),
        EventView::ServiceExited(true, output),
    ]);
    assert(events.drop_first().drop_first() =~= seq![EventView::ServiceExited(true, output)]);
    assert(short.drop_first() =~= seq![EventView::PathResolved(path)]);
}

/// A time of the file is read only for a file that exists: a run comes to
/// wait for one only from the report that the file exists.
pub proof fn lemma_file_time_needs_file(run: UpdateRunView, event: EventView)
    requires
        step(run, event).phase is ReadingFileTime,
        !(run.phase is ReadingFileTime),
    ensures
        run.phase == PhaseView::Unstarted,
        event == EventView::Exists(true),
{
}

/// The service runs only on an absolute path: a run comes to wait for the
/// service only from the report of the resolved path, and the command is the
/// one for that path and the date that the run had resolved.
pub proof fn lemma_service_needs_path(run: UpdateRunView, event: EventView)
    requires
        step(run, event).phase is Rewriting,
        !(run.phase is Rewriting),
    ensures
        run.phase matches PhaseView::ResolvingPath(date) && event matches EventView::PathResolved(
            path,
        ) && step(run, event).phase == PhaseView::Rewriting(
            service_command(path, exif_text(date)),
        ),
{
}

/// A run succeeds only when the service reports success.
pub proof fn lemma_success_needs_service(run: UpdateRunView, event: EventView)
    requires
        step(run, event).phase == PhaseView::Succeeded,
        run.phase != PhaseView::Succeeded,
    ensures
        run.phase is Rewriting,
        event matches EventView::ServiceExited(success, _) && success,
{
}

/// A run never goes back: an event moves it further along, or leaves it as
/// it is.
pub proof fn lemma_run_never_goes_back(run: UpdateRunView, event: EventView)
    ensures
        step(run, event).phase.progress() > run.phase.progress() || step(run, event) == run,
{
}

/// A run that is over stays as it is, and asks for nothing more.
pub proof fn lemma_finished_run_stays(run: UpdateRunView, event: EventView)
    requires
        run.phase.is_finished(),
    ensures
        step(run, event) == run,
        pending_action(run.phase) == ActionView::Stop,
{
}

/// A run that is over stays as it is through every sequence of events.
pub proof fn lemma_finished_run_stays_finished(run: UpdateRunView, events: Seq<EventView>)
    requires
        run.phase.is_finished(),
    ensures
        run_through(run, events) == run,
    decreases events.len(),
{
    if events.len() > 0 {
        lemma_finished_run_stays(run, events[0]);
        lemma_finished_run_stays_finished(run, events.drop_first());
    }
}

/// The exit code is zero after success and after nothing else.
pub proof fn lemma_exit_code_zero_is_success(phase: PhaseView)
    ensures
        phase.exit_code() == Some(0i32) <==> phase == PhaseView::Succeeded,
        phase is Failed ==> phase.exit_code() == Some(1i32),
{
}

} // verus!
