//! The core of a single-document text editor: the text buffer, the decisions
//! of the file-opening pipeline, and the state machine that applies messages
//! one at a time.

pub mod action;
pub mod buffer;
pub mod file;
pub mod machine;
pub mod status;
