//! Writes display cells out as text for a terminal.
//!
//! A cell without colour is its character. A coloured cell is wrapped in a
//! select-graphic-rendition sequence that sets the foreground, and followed by
//! one that resets it.

use crate::color::{DisplayCell, Foreground};
use vstd::prelude::*;
use vstd::string::StringExecFns;

verus! {

/// Appends `ch` to `text` with `String::push` of the standard library; the
/// contract claims that the text afterwards is the text before followed by
/// `ch`, as the method's documentation says.
#[verifier::external_body]
fn push_char(text: &mut String, ch: char)
    ensures
        final(text)@ == old(text)@.push(ch),
{
    text.push(ch);
}

/// The character of the decimal digit `d`.
pub open spec fn digit_char(d: nat) -> char {
    if d == 0 {
        '0'
    } else if d == 1 {
        '1'
    } else if d == 2 {
        '2'
    } else if d == 3 {
        '3'
    } else if d == 4 {
        '4'
    } else if d == 5 {
        '5'
    } else if d == 6 {
        '6'
    } else if d == 7 {
        '7'
    } else if d == 8 {
        '8'
    } else {
        '9'
    }
}

/// `n` in decimal, without leading zeros.
pub open spec fn decimal(n: nat) -> Seq<char>
    decreases n,
{
    if n < 10 {
        seq![digit_char(n)]
    } else {
        decimal(n / 10).push(digit_char(n % 10))
    }
}

/// The sequence that opens a foreground colour from the 256-colour palette.
pub open spec fn palette_prefix() -> Seq<char> {
    "\x1b[38;5;"@
}

/// The sequence that opens a 24-bit foreground colour.
pub open spec fn rgb_prefix() -> Seq<char> {
    "\x1b[38;2;"@
}

/// The sequence that resets the colour.
pub open spec fn reset_suffix() -> Seq<char> {
    "\x1b[0m"@
}

/// The text of one cell.
pub open spec fn cell_text(cell: DisplayCell) -> Seq<char> {
    match cell.color {
        None => seq![cell.ch],
        Some(Foreground::Palette(index)) => (palette_prefix() + decimal(index as nat)).push(
            'm',
        ).push(cell.ch) + reset_suffix(),
        Some(Foreground::Rgb(r, g, b)) => (((rgb_prefix() + decimal(r as nat)).push(';')
            + decimal(g as nat)).push(';') + decimal(b as nat)).push('m').push(cell.ch)
            + reset_suffix(),
    }
}

/// The text of a line: the texts of its cells, left to right.
pub open spec fn line_text(cells: Seq<DisplayCell>) -> Seq<char>
    decreases cells.len(),
{
    if cells.len() == 0 {
        Seq::empty()
    } else {
        line_text(cells.drop_last()) + cell_text(cells.last())
    }
}

/// The characters of a line, without their colours.
pub open spec fn line_chars(cells: Seq<DisplayCell>) -> Seq<char> {
    Seq::new(cells.len(), |i: int| cells[i].ch)
}

/// A line in which no cell is coloured is written as its characters, one
/// per cell.
pub proof fn lemma_plain_line_text(cells: Seq<DisplayCell>)
    requires
        forall|i: int| 0 <= i < cells.len() ==> (#[trigger] cells[i]).color is None,
    ensures
        line_text(cells) == line_chars(cells),
        line_text(cells).len() == cells.len(),
    decreases cells.len(),
{
    if cells.len() > 0 {
        lemma_plain_line_text(cells.drop_last());
        assert(line_text(cells) =~= line_chars(cells));
    } else {
        assert(line_text(cells) =~= line_chars(cells));
    }
}

fn digit(d: u8) -> (ch: char)
    requires
        d < 10,
    ensures
        ch == digit_char(d as nat),
{
    match d {
        0 => '0',
        1 => '1',
        2 => '2',
        3 => '3',
        4 => '4',
        5 => '5',
        6 => '6',
        7 => '7',
        8 => '8',
        _ => '9',
    }
}

fn push_decimal(text: &mut String, n: u8)
    ensures
        final(text)@ == old(text)@ + decimal(n as nat),
{
    reveal_with_fuel(decimal, 3);
    if n >= 100 {
        push_char(text, digit(n / 100));
    }
    if n >= 10 {
        push_char(text, digit((n / 10) % 10));
    }
    push_char(text, digit(n % 10));
    assert(final(text)@ =~= old(text)@ + decimal(n as nat));
}

/// Appends the text of `cell` to `text`.
pub fn push_cell(text: &mut String, cell: &DisplayCell)
    ensures
        final(text)@ == old(text)@ + cell_text(*cell),
{
    match cell.color {
        None => {
            push_char(text, cell.ch);
        },
        Some(Foreground::Palette(index)) => {
            text.append("\x1b[38;5;");
            push_decimal(text, index);
            push_char(text, 'm');
            push_char(text, cell.ch);
            text.append("\x1b[0m");
        },
        Some(Foreground::Rgb(r, g, b)) => {
            text.append("\x1b[38;2;");
            push_decimal(text, r);
            push_char(text, ';');
            push_decimal(text, g);
            push_char(text, ';');
            push_decimal(text, b);
            push_char(text, 'm');
            push_char(text, cell.ch);
            text.append("\x1b[0m");
        },
    }
    assert(final(text)@ =~= old(text)@ + cell_text(*cell));
}

/// Writes a line of cells out as text.
pub fn line_to_string(cells: &Vec<DisplayCell>) -> (text: String)
    ensures
        text@ == line_text(cells@),
{
    let mut text = String::new();
    let mut i: usize = 0;
    while i < cells.len()
        invariant
            i <= cells.len(),
            text@ == line_text(cells@.take(i as int)),
        decreases cells.len() - i,
    {
        proof {
            assert(cells@.take(i + 1).drop_last() =~= cells@.take(i as int));
            assert(cells@.take(i + 1).last() == cells@[i as int]);
        }
        push_cell(&mut text, &cells[i]);
        i += 1;
    }
    assert(cells@.take(i as int) =~= cells@);
    text
}

} // verus!
