//! The interactions that the text editor hands to the buffer.

use iced::Point;
use std::sync::Arc;
use vstd::prelude::*;

verus! {

/// iced's `Point`, carried through as an opaque value.
#[verifier::external_type_specification]
#[verifier::external_body]
#[verifier::reject_recursive_types(T)]
pub struct ExPoint<T>(Point<T>);

/// A movement of the cursor.
#[derive(Debug, Clone, Copy, PartialEq, Eq)]
pub enum Movement {
    /// One character to the left.
    Left,
    /// One character to the right.
    Right,
    /// One laid-out line up.
    Up,
    /// One laid-out line down.
    Down,
    /// To the left boundary of a word.
    WordLeft,
    /// To the right boundary of a word.
    WordRight,
    /// To the start of the laid-out line.
    Home,
    /// To the end of the laid-out line.
    End,
    /// To the start of the previous window.
    PageUp,
    /// To the start of the next window.
    PageDown,
    /// To the start of the text.
    DocumentStart,
    /// To the end of the text.
    DocumentEnd,
}

/// One discrete action on the buffer.
#[derive(Debug, PartialEq)]
pub enum EditAction {
    /// Move the cursor.
    Move(Movement),
    /// Move the cursor and extend the selection over what it passes.
    Select(Movement),
    /// Select the word at the cursor.
    SelectWord,
    /// Select the line at the cursor.
    SelectLine,
    /// Insert the character at the cursor.
    InsertChar(char),
    /// Break the line at the cursor.
    InsertNewline,
    /// Delete the character before the cursor.
    DeleteBackward,
    /// Delete the character behind the cursor.
    DeleteForward,
    /// Insert the text at the cursor.
    Paste(Arc<String>),
    /// Click at the point.
    Click(Point),
    /// Drag the mouse to the point.
    Drag(Point),
    /// Scroll by a number of lines.
    Scroll {
        /// How many lines, downwards where positive.
        lines: i32,
    },
}

impl Movement {
    /// Whether the movement goes by the lines as they are laid out on the
    /// screen, and so needs a layout of the line that the cursor is in.
    pub open spec fn by_layout(self) -> bool {
        self is Up || self is Down || self is Home || self is End || self is PageUp
            || self is PageDown
    }
}

impl EditAction {
    /// Whether the action is a movement by the laid-out lines, with or
    /// without a selection.
    pub open spec fn by_layout(self) -> bool {
        match self {
            EditAction::Move(movement) => movement.by_layout(),
            EditAction::Select(movement) => movement.by_layout(),
            _ => false,
        }
    }

    /// Whether the action goes by the text alone: what it makes of the
    /// lines, the cursor and the selection depends on these three and on
    /// nothing else. These are the edits, the selection of a word or a line,
    /// and the movements to the start and to the end of the document. The
    /// others go by what is on the screen.
    pub open spec fn by_text(self) -> bool {
        match self {
            EditAction::Move(movement) => movement is DocumentStart || movement is DocumentEnd,
            EditAction::Select(movement) => movement is DocumentStart || movement is DocumentEnd,
            EditAction::SelectWord => true,
            EditAction::SelectLine => true,
            EditAction::InsertChar(_) => true,
            EditAction::InsertNewline => true,
            EditAction::DeleteBackward => true,
            EditAction::DeleteForward => true,
            EditAction::Paste(_) => true,
            EditAction::Click(_) => false,
            EditAction::Drag(_) => false,
            EditAction::Scroll { .. } => false,
        }
    }
}

} // verus!
