//! The file whose date-taken tag is to be set.

use vstd::prelude::*;

verus! {

/// The model of a [`TargetFile`].
pub struct TargetFileView {
    /// The path as it was given.
    pub path: Seq<char>,
    /// The final component of the path, if it has one.
    pub file_name: Option<Seq<char>>,
}

/// The path of the image, with the final component that the platform's path
/// rules find in it.
#[derive(Clone, Debug)]
pub struct TargetFile {
    path: String,
    file_name: Option<String>,
}

impl View for TargetFile {
    type V = TargetFileView;

    closed spec fn view(&self) -> TargetFileView {
        TargetFileView {
            path: self.path@,
            file_name: match self.file_name {
                Some(name) => Some(name@),
                None => None,
            },
        }
    }
}

/// `std::path::Path::file_name` on `path`: its final component, if it has
/// one.
///
/// Nothing is claimed of the result: where a component begins depends on
/// the platform's separators.
#[verifier::external_body]
fn final_component(path: &str) -> (name: Option<String>) {
    std::path::Path::new(path).file_name().and_then(|name| name.to_str()).map(
        |name| name.to_string(),
    )
}

impl TargetFile {
    /// The target at `path`. Its file name is whatever final component the
    /// platform finds in the path.
    pub fn new(path: &str) -> (target: TargetFile)
        ensures
            target@.path == path@,
    {
        TargetFile { path: path.to_owned(), file_name: final_component(path) }
    }

    /// The path as it was given.
    pub fn path(&self) -> (path: &str)
        ensures
            path@ == self@.path,
    {
        self.path.as_str()
    }

    /// The final component of the path, if it has one.
    pub fn file_name(&self) -> (name: Option<&str>)
        ensures
            match name {
                Some(name) => self@.file_name == Some(name@),
                None => self@.file_name is None,
            },
    {
        match &self.file_name {
            Some(name) => Some(name.as_str()),
            None => None,
        }
    }
}

} // verus!
