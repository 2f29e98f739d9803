//! Annotates a character with a grayscale foreground colour.

use crate::mode::ColorMode;
use vstd::prelude::*;

verus! {

/// The first of the twenty-four grays that close the 256-colour palette.
pub const GRAY_BASE: u8 = 232;

/// The number of grays in the 256-colour palette.
pub const GRAY_SHADES: u8 = 24;

/// A foreground colour.
#[derive(Clone, Copy, Debug, PartialEq, Eq)]
pub enum Foreground {
    /// An index into the 256-colour palette.
    Palette(u8),
    /// Red, green and blue.
    Rgb(u8, u8, u8),
}

/// One cell of the output: a character and, where the colour policy asks for
/// one, its foreground colour.
#[derive(Clone, Copy, Debug, PartialEq, Eq)]
pub struct DisplayCell {
    pub ch: char,
    pub color: Option<Foreground>,
}

/// The palette index of the gray that stands for `intensity`: the shade
/// `floor(intensity * 23 / 255)`, counted from [`GRAY_BASE`].
pub open spec fn gray_index(intensity: u8) -> int {
    GRAY_BASE + ((intensity as int) * (GRAY_SHADES - 1)) / 255
}

/// The colour that `mode` gives to a cell of the given intensity.
pub open spec fn color_for(intensity: u8, mode: ColorMode) -> Option<Foreground> {
    match mode {
        ColorMode::Plain => None,
        ColorMode::Ansi256 => Some(Foreground::Palette(gray_index(intensity) as u8)),
        ColorMode::AnsiTruecolor => Some(Foreground::Rgb(intensity, intensity, intensity)),
    }
}

/// The cell that shows `ch` at the given intensity under `mode`.
pub open spec fn cell_for(ch: char, intensity: u8, mode: ColorMode) -> DisplayCell {
    DisplayCell { ch, color: color_for(intensity, mode) }
}

/// Every gray index lies among the palette's grays; intensity 0 takes the
/// first of them and 255 the last, and the index never decreases as the
/// intensity grows.
pub proof fn lemma_gray_index_range(i1: u8, i2: u8)
    requires
        i1 <= i2,
    ensures
        GRAY_BASE <= gray_index(i1) <= gray_index(i2) <= 255,
        gray_index(0) == GRAY_BASE,
        gray_index(255) == 255,
{
}

/// The colour policy never changes the character, whatever the policy and
/// the intensity.
pub proof fn lemma_color_keeps_char(ch: char, intensity: u8, a: ColorMode, b: ColorMode)
    ensures
        cell_for(ch, intensity, a).ch == ch,
        cell_for(ch, intensity, a).ch == cell_for(ch, intensity, b).ch,
{
}

/// Pairs `ch` with the colour that `mode` derives from `intensity`.
pub fn encode(ch: char, intensity: u8, mode: ColorMode) -> (cell: DisplayCell)
    ensures
        cell == cell_for(ch, intensity, mode),
        cell.ch == ch,
{
    proof {
        lemma_gray_index_range(intensity, intensity);
    }
    let color = match mode {
        ColorMode::Plain => None,
        ColorMode::Ansi256 => {
            let shade: u16 = (intensity as u16) * ((GRAY_SHADES - 1) as u16) / 255;
            Some(Foreground::Palette((GRAY_BASE as u16 + shade) as u8))
        },
        ColorMode::AnsiTruecolor => Some(Foreground::Rgb(intensity, intensity, intensity)),
    };
    DisplayCell { ch, color }
}

} // verus!
