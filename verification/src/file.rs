//! Paths, errors and the decisions of the pipeline that picks a file and
//! reads it.

use std::io::ErrorKind;
use std::path::PathBuf;
use std::sync::Arc;
use vstd::prelude::*;

verus! {

/// `std::path::PathBuf`, carried through as an opaque value.
#[verifier::external_type_specification]
#[verifier::external_body]
pub struct ExPathBuf(PathBuf);

/// `std::io::ErrorKind`, carried through as an opaque value.
#[verifier::external_type_specification]
#[verifier::external_body]
pub struct ExErrorKind(ErrorKind);

/// The text of a path: what `Path::to_str` yields for it, `None` where the
/// path is not valid Unicode.
pub uninterp spec fn path_text(path: PathBuf) -> Option<Seq<char>>;

/// Why an attempt to open a file ended without a file.
#[derive(Debug, Clone, Copy, PartialEq, Eq)]
pub enum Error {
    /// The file dialog was closed without a choice.
    DialogClosed,
    /// Reading the file failed; only the category of the failure is kept.
    IO(ErrorKind),
}

/// What one run of the pipeline ends with: the path together with the text
/// read from it, or the reason why there is none.
pub type Loaded = Result<(PathBuf, Arc<String>), Error>;

/// The title that the file dialog carries.
pub const DIALOG_TITLE: &'static str = "Choose a text file...";

/// Where the sample document lies below `root`, appended to it as it stands.
pub const DEFAULT_FILE: &'static str = "\\src\\main.rs";

/// Trusted: `PathBuf::from` for a `String`. The path made from a string has
/// that string as its text.
#[verifier::external_body]
fn path_from_string(text: String) -> (path: PathBuf)
    ensures
        path_text(path) == Some(text@),
{
    PathBuf::from(text)
}

/// The path of the sample document that is loaded at startup: `root`
/// followed by `\src\main.rs`.
pub fn default_file(root: &str) -> (path: PathBuf)
    ensures
        path_text(path) == Some(root@ + DEFAULT_FILE@),
{
    let mut text = String::from_str(root);
    text.append(DEFAULT_FILE);
    path_from_string(text)
}

/// Trusted: `Path::to_str`. It yields the text of the path, or nothing where
/// the path is not valid Unicode.
#[verifier::external_body]
pub(crate) fn path_to_str(path: &PathBuf) -> (text: Option<&str>)
    ensures
        match text {
            Some(text) => path_text(*path) == Some(text@),
            None => path_text(*path) is None,
        },
{
    path.to_str()
}

/// The end of the first step of the pipeline: the dialog has handed back
/// the chosen path, or nothing where it was closed without a choice.
pub fn picked(choice: Option<PathBuf>) -> (outcome: Result<PathBuf, Error>)
    ensures
        outcome == match choice {
            Some(path) => Ok::<PathBuf, Error>(path),
            None => Err(Error::DialogClosed),
        },
{
    match choice {
        Some(path) => Ok(path),
        None => Err(Error::DialogClosed),
    }
}

/// The end of the second step of the pipeline: the file at `path` has been
/// read as a whole, or reading it has failed with an error of the given
/// kind. A failure keeps the kind alone; the path is dropped with it.
pub fn loaded(path: PathBuf, read: Result<String, ErrorKind>) -> (outcome: Loaded)
    ensures
        match read {
            Ok(text) => outcome matches Ok((loaded_path, loaded_text)) && loaded_path == path
                && *loaded_text == text,
            Err(kind) => outcome == Err::<(PathBuf, Arc<String>), Error>(Error::IO(kind)),
        },
{
    match read {
        Ok(text) => Ok((path, Arc::new(text))),
        Err(kind) => Err(Error::IO(kind)),
    }
}

} // verus!
