//! Setting the date-taken tag of an image file: the date is resolved from a
//! literal, from the file's name or from one of its filesystem times, and
//! the rewrite is planned as a script for an external imaging service.
//!
//! Everything here computes on plain values. Reading the filesystem and
//! running the service are left to the caller, who is told what to do next
//! by [`update::update_exif_date`].
//!
//! - [`cli`]: the two arguments and the lines printed to the user.
//! - [`source`]: the date source that an argument selects, and how far it
//!   resolves without the filesystem.
//! - [`literal`] and [`filename`]: dates written out, and dates at the
//!   beginning of a file's name.
//! - [`calendar`] and [`digits`]: valid dates, and their text.
//! - [`target`]: the file and its name.
//! - [`script`]: the command for the imaging service.
//! - [`update`]: the run, step by step.
//! - [`error`]: what can go wrong.

pub mod calendar;
pub mod digits;
pub mod error;
pub mod literal;
pub mod filename;
pub mod target;
pub mod source;
pub mod script;
pub mod update;
pub mod cli;
