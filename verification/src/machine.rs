//! The state machine of the editor: one buffer, the path of the file that it
//! shows, and the last error. Every change goes through `update`, one
//! message at a time.

use crate::action::EditAction;
use crate::buffer::Buffer;
use crate::buffer::Document;
use crate::file::default_file;
use crate::file::path_text;
use crate::file::Error;
use crate::file::Loaded;
use crate::file::DEFAULT_FILE;
use crate::status::cursor_label;
use crate::status::cursor_text;
use crate::status::path_label;
use crate::status::shown_path;
use std::path::PathBuf;
use vstd::prelude::*;

verus! {

/// What the editor is told: an action of the user on the text, the wish to
/// open a file, or the end of a run of the file pipeline.
#[derive(Debug)]
pub enum Message {
    /// The user acted on the text.
    Edit(EditAction),
    /// The user asked for a file to be opened.
    Open,
    /// A run of the pipeline has ended.
    FileLoaded(Loaded),
}

/// Work that the editor asks its host to schedule. Each ends with one
/// `Message::FileLoaded`.
#[derive(Debug)]
pub enum Effect {
    /// Let the user pick a file, then read it.
    PickFile,
    /// Read the file at the path.
    LoadFile(PathBuf),
}

/// The editor's state as contracts see it.
pub struct State {
    /// The path of the file that the buffer was last loaded from.
    pub path: Option<PathBuf>,
    /// The document.
    pub buffer: Buffer,
    /// The error of the last failed attempt to open a file.
    pub error: Option<Error>,
}

/// The editor.
pub struct Editor {
    path: Option<PathBuf>,
    buffer: Buffer,
    error: Option<Error>,
}

impl View for Editor {
    type V = State;

    closed spec fn view(&self) -> State {
        State { path: self.path, buffer: self.buffer, error: self.error }
    }
}

impl Editor {
    /// Whether `update` takes the message in this state: an action on the
    /// text has to be one that the buffer admits.
    pub open spec fn takes(&self, message: Message) -> bool {
        message matches Message::Edit(action) ==> self@.buffer.admits(action)
    }

    /// The editor at startup: an empty buffer, no path and no error. The
    /// effect loads the sample document below `root`.
    pub fn new(root: &str) -> (start: (Editor, Option<Effect>))
        ensures
            start.0@.path is None,
            start.0@.error is None,
            start.0@.buffer@ == Document::fresh(Seq::empty()),
            start.0@.buffer@.lines == seq![Seq::<char>::empty()],
            start.0@.buffer@.cursor_in_text(),
            start.0@.buffer.scroll() == 0,
            !start.0@.buffer.laid_out(),
            start.1 matches Some(Effect::LoadFile(path)) && path_text(path) == Some(
                root@ + DEFAULT_FILE@,
            ),
    {
        let editor = Editor { path: None, buffer: Buffer::new(), error: None };
        (editor, Some(Effect::LoadFile(default_file(root))))
    }

    /// Applies one message and says what is to be scheduled.
    ///
    /// An action goes to the buffer; path and error stay. `Open` changes
    /// nothing and asks for the pipeline to run. A loaded file replaces the
    /// text, becomes the path and clears the error. A failure is kept as the
    /// error and changes nothing else. No message takes the cursor out of
    /// the text, and after an action or a loaded file it lies in the text
    /// whatever was before.
    pub fn update(&mut self, message: Message) -> (effect: Option<Effect>)
        requires
            old(self).takes(message),
        ensures
            old(self)@.buffer@.cursor_in_text() ==> final(self)@.buffer@.cursor_in_text(),
            match message {
                Message::Edit(action) => {
                    &&& final(self)@.path == old(self)@.path
                    &&& final(self)@.error == old(self)@.error
                    &&& old(self)@.buffer@.steps_to(action, final(self)@.buffer@)
                    &&& effect is None
                },
                Message::Open => {
                    &&& final(self)@ == old(self)@
                    &&& effect == Some(Effect::PickFile)
                },
                Message::FileLoaded(Ok((path, text))) => {
                    &&& final(self)@.path == Some(path)
                    &&& final(self)@.buffer@ == old(self)@.buffer@.replaced(text@)
                    &&& final(self)@.buffer@.cursor_in_text()
                    &&& final(self)@.buffer.scroll() == 0
                    &&& !final(self)@.buffer.laid_out()
                    &&& final(self)@.error is None
                    &&& effect is None
                },
                Message::FileLoaded(Err(error)) => {
                    &&& final(self)@.path == old(self)@.path
                    &&& final(self)@.buffer == old(self)@.buffer
                    &&& final(self)@.error == Some(error)
                    &&& effect is None
                },
            },
    {
        match message {
            Message::Edit(action) => {
                self.buffer.apply(action);
                None
            },
            Message::Open => Some(Effect::PickFile),
            Message::FileLoaded(Ok((path, text))) => {
                self.path = Some(path);
                self.buffer.replace(text.as_str());
                self.error = None;
                None
            },
            Message::FileLoaded(Err(error)) => {
                self.error = Some(error);
                None
            },
        }
    }

    /// The path of the file that the buffer was last loaded from.
    pub fn path(&self) -> (path: Option<&PathBuf>)
        ensures
            match path {
                Some(path) => self@.path == Some(*path),
                None => self@.path is None,
            },
    {
        self.path.as_ref()
    }

    /// The error of the last failed attempt to open a file.
    pub fn error(&self) -> (error: Option<Error>)
        ensures
            error == self@.error,
    {
        self.error
    }

    /// The document.
    pub fn buffer(&self) -> (buffer: &Buffer)
        ensures
            *buffer == self@.buffer,
    {
        &self.buffer
    }

    /// What the status bar shows for the path: its text, or nothing.
    pub fn path_label(&self) -> (label: String)
        ensures
            label@ == shown_path(self@.path),
    {
        path_label(self.path.as_ref())
    }

    /// What the status bar shows for the cursor.
    pub fn cursor_label(&self) -> (label: String)
        ensures
            label@ == cursor_text(self@.buffer@.cursor),
    {
        cursor_label(self.buffer.cursor_position())
    }
}

} // verus!
