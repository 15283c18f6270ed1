//! The document buffer: the text, the cursor and the selection. iced's text
//! editor content keeps them and carries out every action; this module
//! states what the rest of the library may rely on.

use crate::action::EditAction;
use crate::action::Movement;
use iced::widget::text_editor;
use iced::widget::text_editor::Action as RawAction;
use iced::widget::text_editor::Edit as RawEdit;
use iced::widget::text_editor::Motion as RawMotion;
use vstd::prelude::*;

verus! {

/// iced's `text_editor::Motion`, carried through as an opaque value.
#[verifier::external_type_specification]
#[verifier::external_body]
pub struct ExMotion(text_editor::Motion);

/// iced's `text_editor::Action`, carried through as an opaque value.
#[verifier::external_type_specification]
#[verifier::external_body]
pub struct ExAction(text_editor::Action);

/// The buffer. The widget that draws it borrows `content`, and lays it out
/// and scrolls it as it does so; lines, cursor and selection change through
/// `replace` and `apply` alone. The library itself reaches `content` only
/// through the trusted functions below.
#[verifier::external_body]
pub struct Buffer {
    pub content: text_editor::Content,
}

/// The text of each line of the buffer, first line first.
pub uninterp spec fn buffer_lines(buffer: Buffer) -> Seq<Seq<char>>;

/// The cursor of the buffer: the line, counted from 0, and the byte offset
/// in that line.
pub uninterp spec fn buffer_cursor(buffer: Buffer) -> (usize, usize);

/// Where the selection of the buffer is anchored, as line and byte offset:
/// the selected text lies between this place and the cursor. `None` where
/// nothing is selected.
pub uninterp spec fn buffer_selection(buffer: Buffer) -> Option<(usize, usize)>;

/// How many laid-out lines the buffer is scrolled down. The widget changes
/// it when it lays the buffer out.
pub uninterp spec fn buffer_scroll(buffer: Buffer) -> i32;

/// Whether the buffer has been laid out for the screen, as the widget does
/// before it draws: the line that the cursor is in has a layout, with lines
/// of at least one pixel.
pub uninterp spec fn buffer_laid_out(buffer: Buffer) -> bool;

/// The lines into which `Content::with_text` breaks a text.
pub uninterp spec fn paragraphs(text: Seq<char>) -> Seq<Seq<char>>;

/// What `Content::perform` makes of a document under an action that goes by
/// the text alone: the lines, the cursor and the selection that it leaves.
pub uninterp spec fn performed(document: Document, action: EditAction) -> Document;

/// The lines, with a line feed between each two.
pub open spec fn joined(lines: Seq<Seq<char>>) -> Seq<char>
    decreases lines.len(),
{
    if lines.len() == 0 {
        Seq::empty()
    } else if lines.len() == 1 {
        lines[0]
    } else {
        joined(lines.drop_last()) + seq!['\n'] + lines.last()
    }
}

/// The buffer as contracts see it: what the actions that go by the text
/// read and change.
pub struct Document {
    /// The text of each line, first line first.
    pub lines: Seq<Seq<char>>,
    /// The line of the cursor, counted from 0, and its byte offset in that
    /// line.
    pub cursor: (usize, usize),
    /// Where the selection is anchored, if text is selected.
    pub selection: Option<(usize, usize)>,
}

impl Document {
    /// The document that a text makes: its lines, the cursor at the start,
    /// nothing selected.
    pub open spec fn fresh(text: Seq<char>) -> Document {
        Document { lines: paragraphs(text), cursor: (0, 0), selection: None }
    }

    /// The document after its text has been replaced by `text`: nothing of
    /// the old document is left.
    pub open spec fn replaced(self, text: Seq<char>) -> Document {
        Document::fresh(text)
    }

    /// Whether the cursor lies in the text: in one of the lines, and in that
    /// line not behind its last byte.
    pub open spec fn cursor_in_text(self) -> bool {
        &&& self.cursor.0 < self.lines.len()
        &&& self.cursor.1 <= vstd::utf8::encode_utf8(self.lines[self.cursor.0 as int]).len()
    }

    /// The document with its cursor in the text: the document itself where
    /// the cursor lies in the text, else the document made anew from its
    /// text.
    pub open spec fn settled(self) -> Document {
        if self.cursor_in_text() {
            self
        } else {
            Document::fresh(joined(self.lines))
        }
    }

    /// The document after an action that goes by the text alone.
    pub open spec fn applied(self, action: EditAction) -> Document
        recommends
            action.by_text(),
    {
        performed(self, action).settled()
    }

    /// Whether `after` can be what `Buffer::apply` leaves of this document:
    /// the cursor lies in the text, and an action that goes by the text
    /// alone leaves the one document that it determines.
    pub open spec fn steps_to(self, action: EditAction, after: Document) -> bool {
        &&& after.cursor_in_text()
        &&& action.by_text() ==> after == self.applied(action)
    }
}

impl View for Buffer {
    type V = Document;

    open spec fn view(&self) -> Document {
        Document {
            lines: buffer_lines(*self),
            cursor: buffer_cursor(*self),
            selection: buffer_selection(*self),
        }
    }
}

/// Trusted: names the variant of iced's `Motion` that stands for the
/// movement.
#[verifier::external_body]
fn raw_motion(movement: Movement) -> text_editor::Motion {
    match movement {
        Movement::Left => RawMotion::Left,
        Movement::Right => RawMotion::Right,
        Movement::Up => RawMotion::Up,
        Movement::Down => RawMotion::Down,
        Movement::WordLeft => RawMotion::WordLeft,
        Movement::WordRight => RawMotion::WordRight,
        Movement::Home => RawMotion::Home,
        Movement::End => RawMotion::End,
        Movement::PageUp => RawMotion::PageUp,
        Movement::PageDown => RawMotion::PageDown,
        Movement::DocumentStart => RawMotion::DocumentStart,
        Movement::DocumentEnd => RawMotion::DocumentEnd,
    }
}

/// Trusted: names the value of iced's `Action` that stands for the action.
#[verifier::external_body]
fn raw_action(action: EditAction) -> text_editor::Action {
    match action {
        EditAction::Move(movement) => RawAction::Move(raw_motion(movement)),
        EditAction::Select(movement) => RawAction::Select(raw_motion(movement)),
        EditAction::SelectWord => RawAction::SelectWord,
        EditAction::SelectLine => RawAction::SelectLine,
        EditAction::InsertChar(character) => RawAction::Edit(RawEdit::Insert(character)),
        EditAction::InsertNewline => RawAction::Edit(RawEdit::Enter),
        EditAction::DeleteBackward => RawAction::Edit(RawEdit::Backspace),
        EditAction::DeleteForward => RawAction::Edit(RawEdit::Delete),
        EditAction::Paste(text) => RawAction::Edit(RawEdit::Paste(text)),
        EditAction::Click(point) => RawAction::Click(point),
        EditAction::Drag(point) => RawAction::Drag(point),
        EditAction::Scroll { lines } => RawAction::Scroll { lines },
    }
}

impl Buffer {
    /// How many laid-out lines the buffer is scrolled down.
    pub open spec fn scroll(&self) -> i32 {
        buffer_scroll(*self)
    }

    /// Whether the buffer has been laid out for the screen.
    pub open spec fn laid_out(&self) -> bool {
        buffer_laid_out(*self)
    }

    /// Whether the buffer has what the action needs. A movement by the
    /// laid-out lines needs the layout. A scroll needs a scroll position
    /// that its lines can be added to.
    pub open spec fn admits(&self, action: EditAction) -> bool {
        &&& action.by_layout() ==> self.laid_out()
        &&& action matches EditAction::Scroll { lines } ==> i32::MIN <= self.scroll() + lines
            <= i32::MAX
    }

    /// Trusted: `Content::with_text`. The new content holds the lines of the
    /// text, at least one, and exactly one empty line for the empty text. Its
    /// cursor is at the start and nothing is selected. It is not scrolled,
    /// and no line of it has been laid out.
    #[verifier::external_body]
    fn with_text(text: &str) -> (buffer: Buffer)
        ensures
            buffer_lines(buffer) == paragraphs(text@),
            buffer_lines(buffer).len() >= 1,
            text@.len() == 0 ==> buffer_lines(buffer) == seq![Seq::<char>::empty()],
            buffer_cursor(buffer) == (0usize, 0usize),
            buffer_selection(buffer) is None,
            buffer_scroll(buffer) == 0,
            !buffer_laid_out(buffer),
    {
        Buffer { content: text_editor::Content::with_text(text) }
    }

    /// Trusted: `Content::perform`, handed the action in iced's terms. For a
    /// movement by the laid-out lines it looks up the layout of the cursor's
    /// line and panics where there is none; for a scroll it adds the lines to
    /// the scroll position. Both are asked of the caller. For an action that
    /// goes by the text alone, the lines, the cursor and the selection after
    /// the call are a function of those before it and of the action, which
    /// `performed` names. Nothing is claimed of what another action leaves.
    #[verifier::external_body]
    fn perform(&mut self, action: EditAction)
        requires
            old(self).admits(action),
        ensures
            action.by_text() ==> final(self)@ == performed(old(self)@, action),
    {
        self.content.perform(raw_action(action))
    }

    /// Trusted: `Content::cursor_position`, the line and the byte offset of
    /// the cursor.
    #[verifier::external_body]
    fn position(&self) -> (position: (usize, usize))
        ensures
            position == buffer_cursor(*self),
    {
        self.content.cursor_position()
    }

    /// Trusted: `Content::line_count`, the number of lines.
    #[verifier::external_body]
    fn line_count(&self) -> (count: usize)
        ensures
            count == buffer_lines(*self).len(),
    {
        self.content.line_count()
    }

    /// Trusted: `Content::line`, the line copied into a `String`. There is a
    /// line at every index below the number of lines, and at no other.
    #[verifier::external_body]
    fn line_text(&self, index: usize) -> (line: Option<String>)
        ensures
            match line {
                Some(line) => index < buffer_lines(*self).len() && line@ == buffer_lines(
                    *self,
                )[index as int],
                None => index >= buffer_lines(*self).len(),
            },
    {
        self.content.line(index).map(|line| line.to_string())
    }

    /// An empty buffer: one line without text, the cursor at its start.
    pub fn new() -> (buffer: Buffer)
        ensures
            buffer@ == Document::fresh(Seq::empty()),
            buffer@.lines == seq![Seq::<char>::empty()],
            buffer@.cursor_in_text(),
            buffer.scroll() == 0,
            !buffer.laid_out(),
    {
        proof {
            reveal_strlit("");
            assert(""@ =~= Seq::<char>::empty());
        }
        Buffer::with_text("")
    }

    /// Discards what the buffer holds and puts `text` in its place, with the
    /// cursor at the start of the document.
    pub fn replace(&mut self, text: &str)
        ensures
            final(self)@ == old(self)@.replaced(text@),
            final(self)@.cursor_in_text(),
            final(self).scroll() == 0,
            !final(self).laid_out(),
    {
        *self = Buffer::with_text(text);
    }

    /// Brings the cursor into the text: a buffer whose cursor lies in its
    /// text is left alone, another one is made anew from its text, with the
    /// cursor at the start.
    pub fn settle(&mut self)
        ensures
            final(self)@ == old(self)@.settled(),
            final(self)@.cursor_in_text(),
            old(self)@.cursor_in_text() ==> *final(self) == *old(self),
    {
        if !self.cursor_in_text() {
            let text = self.content();
            self.replace(text.as_str());
        }
    }

    /// Applies one action to the buffer and brings the cursor into the text,
    /// should iced have left it outside. An action that goes by the text
    /// alone leaves the document that `Document::applied` names; what another
    /// action leaves depends on the layout on the screen.
    pub fn apply(&mut self, action: EditAction)
        requires
            old(self).admits(action),
        ensures
            old(self)@.steps_to(action, final(self)@),
    {
        self.perform(action);
        self.settle();
    }

    /// The line and the byte offset of the cursor, both counted from 0.
    pub fn cursor_position(&self) -> (position: (usize, usize))
        ensures
            position == self@.cursor,
    {
        self.position()
    }

    /// Whether the cursor lies in the text: in one of the lines, and in that
    /// line not behind its last byte.
    pub fn cursor_in_text(&self) -> (inside: bool)
        ensures
            inside == self@.cursor_in_text(),
    {
        let (row, column) = self.position();
        match self.line_text(row) {
            Some(line) => column <= line.as_str().as_bytes().len(),
            None => false,
        }
    }

    /// The text of the buffer: its lines with a line feed between each two.
    pub fn content(&self) -> (text: String)
        ensures
            text@ == joined(self@.lines),
    {
        let count = self.line_count();
        let mut text = String::new();
        let mut i: usize = 0;
        proof {
            reveal_strlit("\n");
        }
        while i < count
            invariant
                0 <= i <= count,
                count == self@.lines.len(),
                text@ == joined(self@.lines.take(i as int)),
                "\n"@ == seq!['\n'],
            decreases count - i,
        {
            proof {
                let before = self@.lines.take(i as int);
                let after = self@.lines.take(i as int + 1);
                assert(after.drop_last() == before);
            }
            if i > 0 {
                text.append("\n");
            }
            if let Some(line) = self.line_text(i) {
                text.append(line.as_str());
            }
            i += 1;
        }
        proof {
            assert(self@.lines.take(i as int) == self@.lines);
        }
        text
    }
}

/// Whether the documents are those of a run of the actions: one more than
/// there are actions, each but the first what `Buffer::apply` can leave of
/// the one before it under the action at that place.
pub open spec fn is_run(documents: Seq<Document>, actions: Seq<EditAction>) -> bool {
    &&& documents.len() == actions.len() + 1
    &&& forall|i: int|
        0 <= i < actions.len() ==> documents[i].steps_to(#[trigger] actions[i], documents[i + 1])
}

/// Replacing the text is idempotent: replacing it by `text` and then once
/// more by the same `text` gives the document that the first replacement
/// gave, and the cursor is at the start of the document after either.
pub proof fn replace_is_idempotent(document: Document, text: Seq<char>)
    ensures
        document.replaced(text).replaced(text) == document.replaced(text),
        document.replaced(text).cursor == (0usize, 0usize),
        document.replaced(text).replaced(text).cursor == (0usize, 0usize),
{
}

/// The cursor stays in the text: in a run of any actions, every document
/// after the first has its cursor in one of its lines and not behind the end
/// of that line.
pub proof fn run_keeps_cursor_in_text(documents: Seq<Document>, actions: Seq<EditAction>, i: int)
    requires
        is_run(documents, actions),
        1 <= i < documents.len(),
    ensures
        documents[i].cursor_in_text(),
        documents[i].cursor.0 < documents[i].lines.len(),
{
    assert(documents[i - 1].steps_to(actions[i - 1], documents[i - 1 + 1]));
}

/// The order of the actions alone decides the outcome: two runs of the same
/// actions from the same document, all of them actions that go by the text
/// alone, pass through the same documents and end with the same text and the
/// same cursor.
pub proof fn runs_agree(first: Seq<Document>, second: Seq<Document>, actions: Seq<EditAction>)
    requires
        is_run(first, actions),
        is_run(second, actions),
        first[0] == second[0],
        forall|i: int| 0 <= i < actions.len() ==> (#[trigger] actions[i]).by_text(),
    ensures
        first == second,
        first.last().lines == second.last().lines,
        first.last().cursor == second.last().cursor,
{
    runs_agree_up_to(first, second, actions, actions.len() as int);
    assert(first =~= second);
}

/// Two runs as in `runs_agree` pass through the same documents up to the
/// one with the index `n`.
proof fn runs_agree_up_to(
    first: Seq<Document>,
    second: Seq<Document>,
    actions: Seq<EditAction>,
    n: int,
)
    requires
        is_run(first, actions),
        is_run(second, actions),
        first[0] == second[0],
        forall|i: int| 0 <= i < actions.len() ==> (#[trigger] actions[i]).by_text(),
        0 <= n <= actions.len(),
    ensures
        forall|i: int| 0 <= i <= n ==> first[i] == second[i],
    decreases n,
{
    if n > 0 {
        runs_agree_up_to(first, second, actions, n - 1);
        assert(first[n - 1].steps_to(actions[n - 1], first[n - 1 + 1]));
        assert(second[n - 1].steps_to(actions[n - 1], second[n - 1 + 1]));
        assert(actions[n - 1].by_text());
    }
}

} // verus!
