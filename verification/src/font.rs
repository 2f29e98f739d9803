//! Takes over the outcome of the font parser.
//!
//! The caller parses the font data with `fontdue` and rasterizes the glyph
//! from the font; the font is opaque here. What the parser returned is turned
//! into the library's own result by [`font_or_error`].

use crate::mode::RenderError;
use vstd::prelude::*;
use vstd::string::StringExecFns;

verus! {

/// A parsed font of `fontdue`, carried through unopened.
#[verifier::external_type_specification]
#[verifier::external_body]
pub struct ExFont(fontdue::Font);

/// The message of a parse failure with the parser's `reason`.
pub open spec fn parse_failure_text(reason: Seq<char>) -> Seq<char> {
    "Failed to parse font: "@ + reason
}

/// Turns the parser's outcome into the library's: a font is passed on, a
/// refusal becomes [`RenderError::Parse`] with the parser's reason in its
/// message.
pub fn font_or_error(parsed: Result<fontdue::Font, &'static str>) -> (r: Result<
    fontdue::Font,
    RenderError,
>)
    ensures
        match parsed {
            Ok(font) => r == Ok::<fontdue::Font, RenderError>(font),
            Err(reason) => r matches Err(RenderError::Parse(text)) && text@
                == parse_failure_text(reason@),
        },
{
    match parsed {
        Ok(font) => Ok(font),
        Err(reason) => {
            let text = String::from_str("Failed to parse font: ").concat(reason);
            Err(RenderError::Parse(text))
        },
    }
}

} // verus!
