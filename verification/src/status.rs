//! The text of the status bar: the path of the file, and the cursor's place
//! in decimal digits, counted from 1.

use crate::file::path_text;
use crate::file::path_to_str;
use std::path::PathBuf;
use vstd::prelude::*;

verus! {

/// The character of a decimal digit.
pub open spec fn digit(value: nat) -> char
    recommends
        value < 10,
{
    if value == 0 {
        '0'
    } else if value == 1 {
        '1'
    } else if value == 2 {
        '2'
    } else if value == 3 {
        '3'
    } else if value == 4 {
        '4'
    } else if value == 5 {
        '5'
    } else if value == 6 {
        '6'
    } else if value == 7 {
        '7'
    } else if value == 8 {
        '8'
    } else {
        '9'
    }
}

/// The decimal digits of a number, the most significant first, without
/// leading zeros.
pub open spec fn decimal(value: nat) -> Seq<char>
    decreases value,
{
    if value < 10 {
        seq![digit(value)]
    } else {
        decimal(value / 10).push(digit(value % 10))
    }
}

/// What the status bar shows for a cursor: `L:` and the line, then `, C:`
/// and the column, both counted from 1.
pub open spec fn cursor_text(cursor: (usize, usize)) -> Seq<char> {
    seq!['L', ':'] + decimal((cursor.0 + 1) as nat) + seq![',', ' ', 'C', ':'] + decimal(
        (cursor.1 + 1) as nat,
    )
}

/// What is shown for a path: its text, or nothing where there is no path or
/// the path is not valid Unicode.
pub open spec fn shown_path(path: Option<PathBuf>) -> Seq<char> {
    match path {
        Some(path) => match path_text(path) {
            Some(text) => text,
            None => Seq::empty(),
        },
        None => Seq::empty(),
    }
}

/// The text that stands for the path in the status bar.
pub fn path_label(path: Option<&PathBuf>) -> (label: String)
    ensures
        label@ == shown_path(
            match path {
                Some(path) => Some(*path),
                None => None,
            },
        ),
{
    proof {
        reveal_strlit("");
    }
    match path {
        Some(path) => match path_to_str(path) {
            Some(text) => String::from_str(text),
            None => String::from_str(""),
        },
        None => String::from_str(""),
    }
}

/// The text of one decimal digit.
fn digit_text(value: u8) -> (text: &'static str)
    requires
        value < 10,
    ensures
        text@ == seq![digit(value as nat)],
{
    proof {
        reveal_strlit("0");
        reveal_strlit("1");
        reveal_strlit("2");
        reveal_strlit("3");
        reveal_strlit("4");
        reveal_strlit("5");
        reveal_strlit("6");
        reveal_strlit("7");
        reveal_strlit("8");
        reveal_strlit("9");
    }
    let text = match value {
        0 => "0",
        1 => "1",
        2 => "2",
        3 => "3",
        4 => "4",
        5 => "5",
        6 => "6",
        7 => "7",
        8 => "8",
        _ => "9",
    };
    assert(text@ =~= seq![digit(value as nat)]);
    text
}

/// Appends the decimal digits of `value` to `text`.
pub fn push_decimal(text: &mut String, value: u128)
    ensures
        final(text)@ == old(text)@ + decimal(value as nat),
    decreases value,
{
    if value >= 10 {
        push_decimal(text, value / 10);
        text.append(digit_text((value % 10) as u8));
        assert(text@ =~= old(text)@ + decimal(value as nat));
    } else {
        text.append(digit_text(value as u8));
    }
}

/// The text that stands for the cursor in the status bar.
pub fn cursor_label(cursor: (usize, usize)) -> (label: String)
    ensures
        label@ == cursor_text(cursor),
{
    proof {
        reveal_strlit("L:");
        reveal_strlit(", C:");
    }
    let mut label = String::from_str("L:");
    push_decimal(&mut label, cursor.0 as u128 + 1);
    label.append(", C:");
    assert(", C:"@ =~= seq![',', ' ', 'C', ':']);
    push_decimal(&mut label, cursor.1 as u128 + 1);
    label
}

} // verus!
