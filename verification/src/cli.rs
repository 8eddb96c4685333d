//! The command line: its two arguments, and the lines printed to the user.

use vstd::prelude::*;
use crate::error::UpdateError;
use crate::error::UpdateErrorView;

verus! {

/// The exit code of a run that replaced the file.
pub const EXIT_SUCCESS: i32 = 0;

/// The exit code of every other run, and of a call with the wrong number of
/// arguments.
pub const EXIT_FAILURE: i32 = 1;

/// The model of an [`Invocation`].
pub struct InvocationView {
    pub file_path: Seq<char>,
    pub date_source: Seq<char>,
}

/// What the user asked for: the image, and where its date comes from.
#[derive(Clone, Debug)]
pub struct Invocation {
    pub file_path: String,
    pub date_source: String,
}

impl View for Invocation {
    type V = InvocationView;

    open spec fn view(&self) -> InvocationView {
        InvocationView { file_path: self.file_path@, date_source: self.date_source@ }
    }
}

/// The model of a [`UsageError`].
pub struct UsageErrorView {
    pub program: Seq<char>,
}

/// The number of arguments was wrong. The name under which the program was
/// called is held here; it is empty where the list did not hold one.
#[derive(Clone, Debug)]
pub struct UsageError {
    pub program: String,
}

impl View for UsageError {
    type V = UsageErrorView;

    open spec fn view(&self) -> UsageErrorView {
        UsageErrorView { program: self.program@ }
    }
}

/// The invocation that an argument list makes: the list holds the program's
/// name and exactly two arguments, the path and then the date source. Any
/// other number of arguments is a usage error.
pub open spec fn invocation_of(arguments: Seq<Seq<char>>) -> Result<
    InvocationView,
    UsageErrorView,
> {
    if arguments.len() == 3 {
        Ok(InvocationView { file_path: arguments[1], date_source: arguments[2] })
    } else if arguments.len() > 0 {
        Err(UsageErrorView { program: arguments[0] })
    } else {
        Err(UsageErrorView { program: Seq::empty() })
    }
}

/// Reads the argument list of the process, the program's name first. Only
/// the number of arguments is checked.
pub fn parse_arguments(arguments: &Vec<String>) -> (parsed: Result<Invocation, UsageError>)
    ensures
        match parsed {
            Ok(invocation) => invocation_of(arguments.deep_view()) matches Ok(asked) && asked
                == invocation@,
            Err(error) => invocation_of(arguments.deep_view()) matches Err(told) && told
                == error@,
        },
{
    if arguments.len() == 3 {
        Ok(Invocation { file_path: arguments[1].clone(), date_source: arguments[2].clone() })
    } else if arguments.len() > 0 {
        Err(UsageError { program: arguments[0].clone() })
    } else {
        Err(UsageError { program: String::new() })
    }
}

/// Begins the hint, before the program's name.
pub const USAGE_HEAD: &'static str = "Usage: ";

/// The rest of the hint: the two arguments, and what the date source can
/// be.
pub const USAGE_BODY: &'static str =
    " <image_path> <date_source>\nDate source can be:\n  - A datetime string: \"2024-01-15 14:30:00\"\n  - 'filename' to extract from filename (yyyymm format)\n  - 'modified' to use file modified date\n  - 'created' to use file created date";

/// Heads the path of the file that was replaced.
pub const SUCCESS_HEAD: &'static str = "Successfully updated EXIF date for: ";

/// Heads the message of a failure.
pub const FAILURE_HEAD: &'static str = "Error: ";

/// The hint printed when the number of arguments is wrong.
pub open spec fn usage_text(program: Seq<char>) -> Seq<char> {
    USAGE_HEAD@ + program + USAGE_BODY@
}

/// The hint printed when the number of arguments is wrong, for a program
/// called `program`.
pub fn usage(program: &str) -> (text: String)
    ensures
        text@ == usage_text(program@),
{
    USAGE_HEAD.to_owned().concat(program).concat(USAGE_BODY)
}

impl UsageErrorView {
    /// The hint that tells the user of this error.
    pub open spec fn message_text(self) -> Seq<char> {
        usage_text(self.program)
    }
}

impl UsageError {
    /// The hint that tells the user of this error.
    pub fn message(&self) -> (text: String)
        ensures
            text@ == self@.message_text(),
    {
        usage(self.program.as_str())
    }
}

/// The line printed after the file was replaced.
pub open spec fn success_text(file_path: Seq<char>) -> Seq<char> {
    SUCCESS_HEAD@ + file_path
}

/// The line printed after the file at `file_path` was replaced.
pub fn success_message(file_path: &str) -> (line: String)
    ensures
        line@ == success_text(file_path@),
{
    SUCCESS_HEAD.to_owned().concat(file_path)
}

/// The line printed after a run failed.
pub open spec fn failure_text(error: UpdateErrorView) -> Seq<char> {
    FAILURE_HEAD@ + error.message_text()
}

/// The line printed after a run failed with `error`.
pub fn failure_message(error: &UpdateError) -> (line: String)
    ensures
        line@ == failure_text(error@),
{
    let message = error.message();
    FAILURE_HEAD.to_owned().concat(message.as_str())
}

} // verus!
