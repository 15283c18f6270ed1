use editor::action::{EditAction, Movement};
use editor::buffer::Buffer;
use std::sync::Arc;

fn buffer_with(text: &str) -> Buffer {
    let mut buffer = Buffer::new();
    buffer.replace(text);
    buffer
}

fn cursor_is_in_text(buffer: &Buffer) -> bool {
    let content = buffer.content();
    let lines: Vec<&str> = content.split('\n').collect();
    let (row, column) = buffer.cursor_position();
    row < lines.len() && column <= lines[row].len()
}

fn edits() -> Vec<EditAction> {
    vec![
        EditAction::Move(Movement::DocumentEnd),
        EditAction::InsertChar('!'),
        EditAction::InsertNewline,
        EditAction::InsertChar('a'),
        EditAction::InsertChar('b'),
        EditAction::DeleteBackward,
        EditAction::Move(Movement::DocumentStart),
        EditAction::DeleteForward,
        EditAction::Paste(Arc::new(String::from("one\ntwo"))),
        EditAction::Select(Movement::DocumentEnd),
        EditAction::DeleteBackward,
        EditAction::InsertChar('z'),
    ]
}

#[test]
fn new_buffer_is_one_empty_line() {
    let buffer = Buffer::new();
    assert_eq!(buffer.content(), "");
    assert_eq!(buffer.cursor_position(), (0, 0));
    assert_eq!(buffer.content.line_count(), 1);
}

#[test]
fn insert_char_at_end_of_hello() {
    let mut buffer = buffer_with("hello");
    buffer.apply(EditAction::Move(Movement::DocumentEnd));
    assert_eq!(buffer.cursor_position(), (0, 5));
    buffer.apply(EditAction::InsertChar('!'));
    assert_eq!(buffer.content(), "hello!");
    assert_eq!(buffer.cursor_position(), (0, 6));
}

#[test]
fn replace_resets_cursor_and_text() {
    let mut buffer = buffer_with("first\nsecond");
    buffer.apply(EditAction::Move(Movement::DocumentEnd));
    assert_eq!(buffer.cursor_position(), (1, 6));
    buffer.replace("other");
    assert_eq!(buffer.content(), "other");
    assert_eq!(buffer.cursor_position(), (0, 0));
}

#[test]
fn replace_twice_is_replace_once() {
    let mut once = buffer_with("start");
    once.apply(EditAction::Move(Movement::DocumentEnd));
    once.replace("X\ny");
    let mut twice = buffer_with("start");
    twice.apply(EditAction::Move(Movement::DocumentEnd));
    twice.replace("X\ny");
    assert_eq!(twice.cursor_position(), (0, 0));
    twice.replace("X\ny");
    assert_eq!(twice.cursor_position(), (0, 0));
    assert_eq!(once.cursor_position(), (0, 0));
    assert_eq!(once.content(), twice.content());
    assert_eq!(twice.content(), "X\ny");
}

#[test]
fn cursor_stays_in_text() {
    let mut buffer = buffer_with("Edit me!");
    assert!(cursor_is_in_text(&buffer));
    assert!(buffer.cursor_in_text());
    for action in edits() {
        buffer.apply(action);
        assert!(cursor_is_in_text(&buffer));
        assert!(buffer.cursor_in_text());
    }
}

#[test]
fn cursor_at_the_end_of_the_last_line_is_in_text() {
    let mut buffer = buffer_with("ab\ncdé");
    buffer.apply(EditAction::Move(Movement::DocumentEnd));
    assert_eq!(buffer.cursor_position(), (1, 4));
    assert!(buffer.cursor_in_text());
}

#[test]
fn same_edits_give_same_buffer() {
    let mut first = buffer_with("Edit me!");
    for action in edits() {
        first.apply(action);
    }
    let mut second = buffer_with("Edit me!");
    for action in edits() {
        second.apply(action);
    }
    assert_eq!(first.content(), second.content());
    assert_eq!(first.cursor_position(), second.cursor_position());
    assert_eq!(first.content(), "one\ntwoz");
    assert_eq!(first.cursor_position(), (1, 4));
}

#[test]
fn delete_backward_at_document_start_does_nothing() {
    let mut buffer = buffer_with("hello");
    buffer.apply(EditAction::DeleteBackward);
    assert_eq!(buffer.content(), "hello");
    assert_eq!(buffer.cursor_position(), (0, 0));
}

#[test]
fn delete_forward_at_document_end_does_nothing() {
    let mut buffer = buffer_with("hello");
    buffer.apply(EditAction::Move(Movement::DocumentEnd));
    buffer.apply(EditAction::DeleteForward);
    assert_eq!(buffer.content(), "hello");
    assert_eq!(buffer.cursor_position(), (0, 5));
}

#[test]
fn insert_newline_breaks_the_line() {
    let mut buffer = buffer_with("ab");
    buffer.apply(EditAction::Move(Movement::DocumentEnd));
    buffer.apply(EditAction::InsertNewline);
    buffer.apply(EditAction::InsertChar('c'));
    assert_eq!(buffer.content(), "ab\nc");
    assert_eq!(buffer.cursor_position(), (1, 1));
}

#[test]
fn delete_backward_joins_lines() {
    let mut buffer = buffer_with("ab\ncd");
    buffer.apply(EditAction::Move(Movement::DocumentEnd));
    buffer.apply(EditAction::DeleteBackward);
    buffer.apply(EditAction::DeleteBackward);
    buffer.apply(EditAction::DeleteBackward);
    assert_eq!(buffer.content(), "ab");
    assert_eq!(buffer.cursor_position(), (0, 2));
}

#[test]
fn paste_inserts_lines() {
    let mut buffer = buffer_with("ad");
    buffer.apply(EditAction::Move(Movement::DocumentEnd));
    buffer.apply(EditAction::DeleteBackward);
    buffer.apply(EditAction::Paste(Arc::new(String::from("b\nc"))));
    buffer.apply(EditAction::InsertChar('d'));
    assert_eq!(buffer.content(), "ab\ncd");
    assert_eq!(buffer.cursor_position(), (1, 2));
}

#[test]
fn column_counts_bytes() {
    let mut buffer = buffer_with("");
    buffer.apply(EditAction::InsertChar('é'));
    assert_eq!(buffer.content(), "é");
    assert_eq!(buffer.cursor_position(), (0, 2));
}

#[test]
fn movements_and_selections_keep_the_text() {
    let mut buffer = buffer_with("one two\nthree");
    let actions = vec![
        EditAction::Move(Movement::DocumentEnd),
        EditAction::Move(Movement::Left),
        EditAction::Move(Movement::WordLeft),
        EditAction::Select(Movement::DocumentStart),
        EditAction::Move(Movement::Right),
        EditAction::SelectWord,
        EditAction::SelectLine,
        EditAction::Move(Movement::WordRight),
        EditAction::Scroll { lines: 3 },
        EditAction::Click(iced::Point::ORIGIN),
        EditAction::Drag(iced::Point::ORIGIN),
    ];
    for action in actions {
        buffer.apply(action);
        assert_eq!(buffer.content(), "one two\nthree");
    }
}

#[test]
fn select_then_delete_removes_the_selection() {
    let mut buffer = buffer_with("one two\nthree");
    buffer.apply(EditAction::Select(Movement::DocumentEnd));
    assert_eq!(buffer.cursor_position(), (1, 5));
    buffer.apply(EditAction::DeleteBackward);
    assert_eq!(buffer.content(), "");
    assert_eq!(buffer.cursor_position(), (0, 0));
}

#[test]
fn settle_leaves_a_sound_buffer_alone() {
    let mut buffer = buffer_with("ab\ncd");
    buffer.apply(EditAction::Move(Movement::DocumentEnd));
    buffer.apply(EditAction::Select(Movement::DocumentStart));
    buffer.settle();
    assert_eq!(buffer.content(), "ab\ncd");
    assert_eq!(buffer.cursor_position(), (0, 0));
    assert_eq!(buffer.content.selection(), Some(String::from("ab\ncd")));
}

#[test]
fn scroll_keeps_text_and_cursor() {
    let mut buffer = buffer_with("one\ntwo\nthree");
    buffer.apply(EditAction::Move(Movement::DocumentEnd));
    buffer.apply(EditAction::Scroll { lines: 2 });
    buffer.apply(EditAction::Scroll { lines: -1 });
    assert_eq!(buffer.content(), "one\ntwo\nthree");
    assert_eq!(buffer.cursor_position(), (2, 5));
}

#[test]
fn last_line_feed_of_a_text_opens_no_line() {
    let buffer = buffer_with("a\n");
    assert_eq!(buffer.content(), "a");
    let buffer = buffer_with("a\n\n");
    assert_eq!(buffer.content(), "a\n");
}

#[test]
fn control_character_is_not_inserted() {
    let mut buffer = buffer_with("ab");
    buffer.apply(EditAction::InsertChar('\u{7}'));
    assert_eq!(buffer.content(), "ab");
    assert_eq!(buffer.cursor_position(), (0, 0));
    buffer.apply(EditAction::InsertChar('\n'));
    assert_eq!(buffer.content(), "\nab");
    assert_eq!(buffer.cursor_position(), (1, 0));
}

#[test]
fn text_is_broken_at_line_feeds() {
    let buffer = buffer_with("a\nb\n\nc");
    assert_eq!(buffer.content(), "a\nb\n\nc");
    assert_eq!(buffer.content.line_count(), 4);
}

fn next_number(seed: &mut u64) -> u64 {
    *seed = seed
        .wrapping_mul(6364136223846793005)
        .wrapping_add(1442695040888963407);
    *seed >> 33
}

fn some_action(seed: &mut u64) -> EditAction {
    let characters = [
        'a', ' ', 'é', '\n', '.', '\u{7}', '日', 'e', '\u{301}', '👍',
    ];
    let texts = ["", "x", "one two", "a\nb", "\n", "é日\n\n本", "e\u{301}"];
    match next_number(seed) % 13 {
        0 => EditAction::Move(Movement::DocumentStart),
        1 => EditAction::Move(Movement::DocumentEnd),
        2 => EditAction::Select(Movement::DocumentStart),
        3 => EditAction::Select(Movement::DocumentEnd),
        4 => EditAction::SelectWord,
        5 => EditAction::SelectLine,
        6 | 7 => {
            let index = next_number(seed) as usize % characters.len();
            EditAction::InsertChar(characters[index])
        }
        8 => EditAction::InsertNewline,
        9 | 10 => EditAction::DeleteBackward,
        11 => EditAction::DeleteForward,
        _ => {
            let index = next_number(seed) as usize % texts.len();
            EditAction::Paste(Arc::new(String::from(texts[index])))
        }
    }
}

#[test]
fn many_runs_keep_the_cursor_in_text_and_agree() {
    let texts = ["", "Edit me!", "one two\nthree.four", "é日本\n👍👍"];
    let mut seed: u64 = 2024;
    for round in 0..200 {
        let mut first = buffer_with(texts[round % texts.len()]);
        let mut second = buffer_with(texts[round % texts.len()]);
        let mut replay = seed;
        for _ in 0..30 {
            first.apply(some_action(&mut seed));
            second.apply(some_action(&mut replay));
            assert!(first.cursor_in_text());
            assert!(cursor_is_in_text(&first));
            assert_eq!(first.content(), second.content());
            assert_eq!(first.cursor_position(), second.cursor_position());
        }
    }
}
