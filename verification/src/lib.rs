//! A note store: text notes kept as an ordered collection, appended to,
//! listed, and removed by identifier.
//!
//! The library decides and the caller acts. Nothing here opens a file or
//! prints a line: an operation takes what the caller read, and answers with
//! the collection to save, the lines to show, or the error to report.
//!
//! - [`notes`] holds the note, the collection and the operations on it.
//! - [`args`] holds the commands and the choice among them.
//! - [`stamp`] draws the identifier and the time of a new note.
//! - [`laws`] states what holds of the operations for every collection.

pub mod args;
pub mod laws;
pub mod notes;
pub mod stamp;
