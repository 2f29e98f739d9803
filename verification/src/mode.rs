//! The two independent policy selectors of a render, and the error type.

use vstd::prelude::*;
use vstd::string::StringExecFns;

verus! {

/// How a sampled intensity becomes a character.
#[derive(Clone, Copy, Debug, PartialEq, Eq, Structural)]
pub enum CharacterSet {
    /// A lookup in the seventy-step density ramp.
    Density,
    /// A binary threshold: a filled cell or a blank.
    Blocks,
}

/// How a cell is coloured.
#[derive(Clone, Copy, Debug, PartialEq, Eq, Structural)]
pub enum ColorMode {
    /// No colour: the character alone.
    Plain,
    /// One of the twenty-four grays of the 256-colour palette.
    Ansi256,
    /// A 24-bit gray.
    AnsiTruecolor,
}

/// A character-set policy paired with a colour policy. Any pair is valid.
#[derive(Clone, Copy, Debug, PartialEq, Eq, Structural)]
pub struct RenderMode {
    pub charset: CharacterSet,
    pub colors: ColorMode,
}

impl RenderMode {
    pub fn new(charset: CharacterSet, colors: ColorMode) -> (mode: RenderMode)
        ensures
            mode.charset == charset,
            mode.colors == colors,
    {
        RenderMode { charset, colors }
    }
}

/// The mode of the plain entry points: the density ramp without colour.
pub open spec fn default_mode() -> RenderMode {
    RenderMode { charset: CharacterSet::Density, colors: ColorMode::Plain }
}

impl Default for RenderMode {
    /// The density ramp without colour.
    fn default() -> (mode: RenderMode)
        ensures
            mode == default_mode(),
            mode.charset == CharacterSet::Density,
            mode.colors == ColorMode::Plain,
    {
        RenderMode { charset: CharacterSet::Density, colors: ColorMode::Plain }
    }
}

/// Why a render failed.
#[derive(Clone, Debug, PartialEq, Eq)]
pub enum RenderError {
    /// A target width, target height or aspect ratio that is not positive.
    InvalidDimension,
    /// The font file could not be read; the payload is the reader's message.
    Io(String),
    /// The font data is malformed or the glyph is unavailable; the payload is
    /// the parser's message.
    Parse(String),
}

impl RenderError {
    /// What [`RenderError::message`] says of a dimension that is not positive.
    pub open spec fn invalid_dimension_text() -> Seq<char> {
        "width, height and aspect ratio must be positive"@
    }

    /// The text of the error: a fixed sentence for an invalid dimension, the
    /// carried message otherwise.
    pub open spec fn text(&self) -> Seq<char> {
        match self {
            RenderError::InvalidDimension => Self::invalid_dimension_text(),
            RenderError::Io(message) => message@,
            RenderError::Parse(message) => message@,
        }
    }

    /// The error as text for the user.
    pub fn message(&self) -> (message: String)
        ensures
            message@ == self.text(),
    {
        match self {
            RenderError::InvalidDimension => String::from_str(
                "width, height and aspect ratio must be positive",
            ),
            RenderError::Io(message) => message.clone(),
            RenderError::Parse(message) => message.clone(),
        }
    }
}

} // verus!
