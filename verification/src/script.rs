//! The script that has the imaging service set the date-taken tag.

use vstd::prelude::*;
use crate::calendar::exif_text;
use crate::calendar::Timestamp;

verus! {

/// Loads the drawing library and opens the image at the path that follows.
pub const OPEN_IMAGE: &'static str =
    "\n        Add-Type -AssemblyName System.Drawing\n        $img = [System.Drawing.Image]::FromFile('";

/// Fetches the date-taken property, tag 36867, and begins the date that
/// follows.
pub const FETCH_PROPERTY: &'static str =
    "')\n        $propItem = $img.GetPropertyItem(36867)\n        $dateStr = '";

/// Stores the date in the property as ASCII with a closing NUL, and saves
/// the image under the path that follows, with `.tmp` behind it.
pub const STORE_DATE: &'static str =
    "'\n        $dateBytes = [System.Text.Encoding]::ASCII.GetBytes($dateStr + [char]0)\n        $propItem.Value = $dateBytes\n        $propItem.Len = $dateBytes.Length\n        $img.SetPropertyItem($propItem)\n        $img.Save('";

/// Closes the image and moves the file at the path that follows, with `.tmp`
/// behind it.
pub const MOVE_FROM: &'static str =
    "' + '.tmp')\n        $img.Dispose()\n        Move-Item -Path ('";

/// Names the path that follows as where the file moves to.
pub const MOVE_TO: &'static str = "' + '.tmp') -Destination '";

/// Lets the move replace the file that is there.
pub const REPLACE: &'static str = "' -Force\n        ";

/// The script for the image at `path` and the date text `date`.
///
/// It opens the image, sets the date-taken property to `date`, saves the
/// image as `path` with `.tmp` behind it, and then moves that file over
/// `path`: the file at `path` is untouched until the new one is whole. Path
/// and date stand between single quotes as they are.
pub open spec fn rewrite_script(path: Seq<char>, date: Seq<char>) -> Seq<char> {
    OPEN_IMAGE@ + path + FETCH_PROPERTY@ + date + STORE_DATE@ + path + MOVE_FROM@ + path
        + MOVE_TO@ + path + REPLACE@
}

/// Writes the script that sets the date-taken tag of the image at `path` to
/// `date`.
pub fn build_script(path: &str, date: &Timestamp) -> (script: String)
    ensures
        script@ == rewrite_script(path@, exif_text(date@)),
{
    let date_text = date.to_exif_string();
    let mut script = OPEN_IMAGE.to_owned();
    script.append(path);
    script.append(FETCH_PROPERTY);
    script.append(date_text.as_str());
    script.append(STORE_DATE);
    script.append(path);
    script.append(MOVE_FROM);
    script.append(path);
    script.append(MOVE_TO);
    script.append(path);
    script.append(REPLACE);
    script
}

/// The model of a [`ServiceCommand`].
pub struct ServiceCommandView {
    pub program: Seq<char>,
    pub arguments: Seq<Seq<char>>,
}

/// A program to run, with its arguments in order.
#[derive(Debug)]
pub struct ServiceCommand {
    pub program: String,
    pub arguments: Vec<String>,
}

impl View for ServiceCommand {
    type V = ServiceCommandView;

    open spec fn view(&self) -> ServiceCommandView {
        ServiceCommandView { program: self.program@, arguments: self.arguments.deep_view() }
    }
}

/// The program that is the imaging service.
pub const SERVICE_PROGRAM: &'static str = "powershell";

/// Keeps the service from loading the user's profile.
pub const NO_PROFILE: &'static str = "-NoProfile";

/// Announces that the next argument is the script to run.
pub const RUN_SCRIPT: &'static str = "-Command";

/// The command that has the imaging service run the script for `path` and
/// `date`.
pub open spec fn service_command(path: Seq<char>, date: Seq<char>) -> ServiceCommandView {
    ServiceCommandView {
        program: SERVICE_PROGRAM@,
        arguments: seq![NO_PROFILE@, RUN_SCRIPT@, rewrite_script(path, date)],
    }
}

/// The command that sets the date-taken tag of the image at `path` to
/// `date`.
pub fn build_command(path: &str, date: &Timestamp) -> (command: ServiceCommand)
    ensures
        command@ == service_command(path@, exif_text(date@)),
{
    let mut arguments: Vec<String> = Vec::new();
    arguments.push(NO_PROFILE.to_owned());
    arguments.push(RUN_SCRIPT.to_owned());
    arguments.push(build_script(path, date));
    let command = ServiceCommand { program: SERVICE_PROGRAM.to_owned(), arguments };
    assert(command@.arguments =~= service_command(path@, exif_text(date@)).arguments);
    command
}

impl Clone for ServiceCommand {
    fn clone(&self) -> (copy: ServiceCommand)
        ensures
            copy@ == self@,
    {
        let mut arguments: Vec<String> = Vec::new();
        let mut at: usize = 0;
        while at < self.arguments.len()
            invariant
                at <= self.arguments.len(),
                arguments.len() == at,
                forall|before: int|
                    0 <= before < at ==> arguments[before]@ == self.arguments[before]@,
            decreases self.arguments.len() - at,
        {
            arguments.push(self.arguments[at].clone());
            at += 1;
        }
        let copy = ServiceCommand { program: self.program.clone(), arguments };
        assert(copy@.arguments =~= self@.arguments);
        copy
    }
}

} // verus!
