//! Composes the four steps: sample the bitmap, pick a character for each
//! sample, colour it, and write the lines out.

use crate::aspect::AspectRatio;
use crate::color::{cell_for, encode, DisplayCell};
use crate::density::{char_for, lemma_extremes, map_intensity, ramp_chars, BLANK, RAMP_LEN};
use crate::mode::{default_mode, CharacterSet, ColorMode, RenderError, RenderMode};
use crate::sampler::{
    is_blank, lemma_same_size_sampling_copies, sample, sample_at, sample_row,
};
use crate::text::{lemma_plain_line_text, line_chars, line_text, line_to_string};
use vstd::prelude::*;

verus! {

/// The display cell at (`row`, `col`): the character and the colour that
/// `mode` derives from the intensity sampled there.
pub open spec fn cell_at(
    pixels: Seq<u8>,
    bitmap_width: usize,
    bitmap_height: usize,
    target_width: usize,
    target_height: usize,
    ratio: AspectRatio,
    mode: RenderMode,
    row: int,
    col: int,
) -> DisplayCell {
    let intensity = sample_at(
        pixels,
        bitmap_width,
        bitmap_height,
        target_width,
        target_height,
        ratio,
        row,
        col,
    );
    cell_for(char_for(intensity, mode.charset), intensity, mode.colors)
}

/// The display cells of grid row `row`, left to right.
pub open spec fn cell_row(
    pixels: Seq<u8>,
    bitmap_width: usize,
    bitmap_height: usize,
    target_width: usize,
    target_height: usize,
    ratio: AspectRatio,
    mode: RenderMode,
    row: int,
) -> Seq<DisplayCell> {
    Seq::new(
        target_width as nat,
        |col: int|
            cell_at(
                pixels,
                bitmap_width,
                bitmap_height,
                target_width,
                target_height,
                ratio,
                mode,
                row,
                col,
            ),
    )
}

/// The characters of grid row `row` under `charset`, left to right.
pub open spec fn char_row(
    pixels: Seq<u8>,
    bitmap_width: usize,
    bitmap_height: usize,
    target_width: usize,
    target_height: usize,
    ratio: AspectRatio,
    charset: CharacterSet,
    row: int,
) -> Seq<char> {
    Seq::new(
        target_width as nat,
        |col: int|
            char_for(
                sample_at(
                    pixels,
                    bitmap_width,
                    bitmap_height,
                    target_width,
                    target_height,
                    ratio,
                    row,
                    col,
                ),
                charset,
            ),
    )
}

/// `grid` is the rendering of the bitmap: `target_height` rows, each the
/// `target_width` cells that the inputs determine.
pub open spec fn is_rendering(
    grid: Seq<Vec<DisplayCell>>,
    pixels: Seq<u8>,
    bitmap_width: usize,
    bitmap_height: usize,
    target_width: usize,
    target_height: usize,
    ratio: AspectRatio,
    mode: RenderMode,
) -> bool {
    &&& grid.len() == target_height
    &&& forall|row: int|
        0 <= row < target_height ==> {
            &&& (#[trigger] grid[row])@.len() == target_width
            &&& grid[row]@ == cell_row(
                pixels,
                bitmap_width,
                bitmap_height,
                target_width,
                target_height,
                ratio,
                mode,
                row,
            )
        }
}

/// `lines` is the rendering of the bitmap written out as text, a line to the
/// row.
pub open spec fn is_rendered_text(
    lines: Seq<String>,
    pixels: Seq<u8>,
    bitmap_width: usize,
    bitmap_height: usize,
    target_width: usize,
    target_height: usize,
    ratio: AspectRatio,
    mode: RenderMode,
) -> bool {
    &&& lines.len() == target_height
    &&& forall|row: int|
        0 <= row < target_height ==> (#[trigger] lines[row])@ == line_text(
            cell_row(
                pixels,
                bitmap_width,
                bitmap_height,
                target_width,
                target_height,
                ratio,
                mode,
                row,
            ),
        )
}

/// `lines` holds the characters of the bitmap's rendering under `charset`,
/// without colour: `target_height` lines of `target_width` characters each.
pub open spec fn is_plain_text(
    lines: Seq<String>,
    pixels: Seq<u8>,
    bitmap_width: usize,
    bitmap_height: usize,
    target_width: usize,
    target_height: usize,
    ratio: AspectRatio,
    charset: CharacterSet,
) -> bool {
    &&& lines.len() == target_height
    &&& forall|row: int|
        0 <= row < target_height ==> {
            &&& (#[trigger] lines[row])@.len() == target_width
            &&& lines[row]@ == char_row(
                pixels,
                bitmap_width,
                bitmap_height,
                target_width,
                target_height,
                ratio,
                charset,
                row,
            )
        }
}

/// A bitmap without ink renders blank: every cell holds the blank character,
/// the lightest of either character set, and the colour of intensity 0.
pub proof fn lemma_blank_bitmap_renders_blank(
    pixels: Seq<u8>,
    bitmap_width: usize,
    bitmap_height: usize,
    target_width: usize,
    target_height: usize,
    ratio: AspectRatio,
    mode: RenderMode,
    row: int,
    col: int,
)
    requires
        is_blank(pixels, bitmap_width, bitmap_height),
    ensures
        cell_at(
            pixels,
            bitmap_width,
            bitmap_height,
            target_width,
            target_height,
            ratio,
            mode,
            row,
            col,
        ) == cell_for(BLANK, 0, mode.colors),
{
    lemma_extremes(mode.charset);
}

/// Rendering has no hidden state: two grids that both render the same inputs
/// agree in their size and in every cell.
pub proof fn lemma_rendering_is_determined(
    first: Seq<Vec<DisplayCell>>,
    second: Seq<Vec<DisplayCell>>,
    pixels: Seq<u8>,
    bitmap_width: usize,
    bitmap_height: usize,
    target_width: usize,
    target_height: usize,
    ratio: AspectRatio,
    mode: RenderMode,
)
    requires
        is_rendering(
            first,
            pixels,
            bitmap_width,
            bitmap_height,
            target_width,
            target_height,
            ratio,
            mode,
        ),
        is_rendering(
            second,
            pixels,
            bitmap_width,
            bitmap_height,
            target_width,
            target_height,
            ratio,
            mode,
        ),
    ensures
        first.len() == second.len(),
        forall|row: int| 0 <= row < first.len() ==> (#[trigger] first[row])@ == second[row]@,
{
}

/// The choice of colour policy leaves every character of the rendering as it
/// is: two modes with the same character set give the same character at each
/// cell.
pub proof fn lemma_colour_leaves_characters(
    pixels: Seq<u8>,
    bitmap_width: usize,
    bitmap_height: usize,
    target_width: usize,
    target_height: usize,
    ratio: AspectRatio,
    charset: CharacterSet,
    a: ColorMode,
    b: ColorMode,
    row: int,
)
    ensures
        line_chars(
            cell_row(
                pixels,
                bitmap_width,
                bitmap_height,
                target_width,
                target_height,
                ratio,
                RenderMode { charset, colors: a },
                row,
            ),
        ) == line_chars(
            cell_row(
                pixels,
                bitmap_width,
                bitmap_height,
                target_width,
                target_height,
                ratio,
                RenderMode { charset, colors: b },
                row,
            ),
        ),
        line_chars(
            cell_row(
                pixels,
                bitmap_width,
                bitmap_height,
                target_width,
                target_height,
                ratio,
                RenderMode { charset, colors: a },
                row,
            ),
        ) == char_row(
            pixels,
            bitmap_width,
            bitmap_height,
            target_width,
            target_height,
            ratio,
            charset,
            row,
        ),
{
    let left = cell_row(
        pixels,
        bitmap_width,
        bitmap_height,
        target_width,
        target_height,
        ratio,
        RenderMode { charset, colors: a },
        row,
    );
    let right = cell_row(
        pixels,
        bitmap_width,
        bitmap_height,
        target_width,
        target_height,
        ratio,
        RenderMode { charset, colors: b },
        row,
    );
    let chars = char_row(
        pixels,
        bitmap_width,
        bitmap_height,
        target_width,
        target_height,
        ratio,
        charset,
        row,
    );
    assert(line_chars(left) =~= chars);
    assert(line_chars(right) =~= chars);
}

/// Without colour a row is written as its characters: the text of the row
/// under a mode of `charset` and no colour is the row's characters.
pub proof fn lemma_plain_row_text(
    pixels: Seq<u8>,
    bitmap_width: usize,
    bitmap_height: usize,
    target_width: usize,
    target_height: usize,
    ratio: AspectRatio,
    charset: CharacterSet,
    row: int,
)
    ensures
        line_text(
            cell_row(
                pixels,
                bitmap_width,
                bitmap_height,
                target_width,
                target_height,
                ratio,
                RenderMode { charset, colors: ColorMode::Plain },
                row,
            ),
        ) == char_row(
            pixels,
            bitmap_width,
            bitmap_height,
            target_width,
            target_height,
            ratio,
            charset,
            row,
        ),
{
    let cells = cell_row(
        pixels,
        bitmap_width,
        bitmap_height,
        target_width,
        target_height,
        ratio,
        RenderMode { charset, colors: ColorMode::Plain },
        row,
    );
    lemma_plain_line_text(cells);
    lemma_colour_leaves_characters(
        pixels,
        bitmap_width,
        bitmap_height,
        target_width,
        target_height,
        ratio,
        charset,
        ColorMode::Plain,
        ColorMode::Plain,
        row,
    );
}

/// A bitmap rendered at its own size is drawn pixel by pixel: the character
/// at (`row`, `col`) is the character of the pixel at (`row`, `col`). So a
/// pixel of full intensity shows as the darkest character of the set and an
/// empty one as a blank, each in its own place.
pub proof fn lemma_same_size_rendering_is_pixelwise(
    pixels: Seq<u8>,
    width: usize,
    height: usize,
    ratio: AspectRatio,
    charset: CharacterSet,
    row: int,
    col: int,
)
    requires
        ratio.wf(),
        pixels.len() == width * height,
        0 <= row < height,
        0 <= col < width,
    ensures
        0 <= row * width + col < pixels.len(),
        char_row(pixels, width, height, width, height, ratio, charset, row)[col] == char_for(
            pixels[row * width + col],
            charset,
        ),
        pixels[row * width + col] == 255 && charset == CharacterSet::Density ==> char_row(
            pixels,
            width,
            height,
            width,
            height,
            ratio,
            charset,
            row,
        )[col] == ramp_chars()[RAMP_LEN - 1],
        pixels[row * width + col] == 0 ==> char_row(
            pixels,
            width,
            height,
            width,
            height,
            ratio,
            charset,
            row,
        )[col] == BLANK,
{
    lemma_same_size_sampling_copies(pixels, width, height, ratio, row, col);
    lemma_extremes(charset);
}

/// Text rendered without colour is plain text: where `lines` is the text of
/// the rendering under `charset` and no colour, each line is the
/// `target_width` characters of its row.
pub proof fn lemma_uncoloured_text_is_plain(
    lines: Seq<String>,
    pixels: Seq<u8>,
    bitmap_width: usize,
    bitmap_height: usize,
    target_width: usize,
    target_height: usize,
    ratio: AspectRatio,
    charset: CharacterSet,
)
    requires
        is_rendered_text(
            lines,
            pixels,
            bitmap_width,
            bitmap_height,
            target_width,
            target_height,
            ratio,
            RenderMode { charset, colors: ColorMode::Plain },
        ),
    ensures
        is_plain_text(
            lines,
            pixels,
            bitmap_width,
            bitmap_height,
            target_width,
            target_height,
            ratio,
            charset,
        ),
{
    assert forall|row: int| 0 <= row < target_height implies (#[trigger] lines[row])@
        == char_row(
        pixels,
        bitmap_width,
        bitmap_height,
        target_width,
        target_height,
        ratio,
        charset,
        row,
    ) by {
        lemma_plain_row_text(
            pixels,
            bitmap_width,
            bitmap_height,
            target_width,
            target_height,
            ratio,
            charset,
            row,
        );
    }
}

/// The cells of the grid, for any grid size.
fn cells_of(
    pixels: &[u8],
    bitmap_width: usize,
    bitmap_height: usize,
    target_width: usize,
    target_height: usize,
    ratio: AspectRatio,
    mode: RenderMode,
) -> (grid: Vec<Vec<DisplayCell>>)
    ensures
        is_rendering(
            grid@,
            pixels@,
            bitmap_width,
            bitmap_height,
            target_width,
            target_height,
            ratio,
            mode,
        ),
{
    let samples = sample(
        pixels,
        bitmap_width,
        bitmap_height,
        target_width,
        target_height,
        ratio,
    );
    let mut grid: Vec<Vec<DisplayCell>> = Vec::new();
    let mut row: usize = 0;
    while row < target_height
        invariant
            row <= target_height,
            samples@.len() == target_height,
            forall|r: int|
                0 <= r < target_height ==> (#[trigger] samples@[r])@ == sample_row(
                    pixels@,
                    bitmap_width,
                    bitmap_height,
                    target_width,
                    target_height,
                    ratio,
                    r,
                ),
            grid@.len() == row,
            forall|r: int|
                0 <= r < row ==> (#[trigger] grid@[r])@ == cell_row(
                    pixels@,
                    bitmap_width,
                    bitmap_height,
                    target_width,
                    target_height,
                    ratio,
                    mode,
                    r,
                ),
        decreases target_height - row,
    {
        let source = &samples[row];
        let mut line: Vec<DisplayCell> = Vec::new();
        let mut col: usize = 0;
        while col < target_width
            invariant
                col <= target_width,
                source@ == sample_row(
                    pixels@,
                    bitmap_width,
                    bitmap_height,
                    target_width,
                    target_height,
                    ratio,
                    row as int,
                ),
                line@.len() == col,
                forall|c: int|
                    0 <= c < col ==> #[trigger] line@[c] == cell_at(
                        pixels@,
                        bitmap_width,
                        bitmap_height,
                        target_width,
                        target_height,
                        ratio,
                        mode,
                        row as int,
                        c,
                    ),
            decreases target_width - col,
        {
            let intensity: u8 = source[col];
            let ch = map_intensity(intensity, mode.charset);
            line.push(encode(ch, intensity, mode.colors));
            col += 1;
        }
        assert(line@ =~= cell_row(
            pixels@,
            bitmap_width,
            bitmap_height,
            target_width,
            target_height,
            ratio,
            mode,
            row as int,
        ));
        grid.push(line);
        row += 1;
    }
    grid
}

/// Writes each row of `grid` out as a line of text.
fn lines_of(grid: &Vec<Vec<DisplayCell>>) -> (lines: Vec<String>)
    ensures
        lines@.len() == grid@.len(),
        forall|row: int|
            0 <= row < grid@.len() ==> (#[trigger] lines@[row])@ == line_text(grid@[row]@),
{
    let mut lines: Vec<String> = Vec::new();
    let mut row: usize = 0;
    while row < grid.len()
        invariant
            row <= grid@.len(),
            lines@.len() == row,
            forall|r: int| 0 <= r < row ==> (#[trigger] lines@[r])@ == line_text(grid@[r]@),
        decreases grid@.len() - row,
    {
        lines.push(line_to_string(&grid[row]));
        row += 1;
    }
    lines
}

/// Renders a rasterized glyph as a grid of `target_height` rows of
/// `target_width` display cells. A zero width or height is refused; a bitmap
/// without ink is not an error and renders blank.
pub fn render(
    pixels: &[u8],
    bitmap_width: usize,
    bitmap_height: usize,
    target_width: usize,
    target_height: usize,
    ratio: AspectRatio,
    mode: RenderMode,
) -> (r: Result<Vec<Vec<DisplayCell>>, RenderError>)
    ensures
        r is Ok <==> target_width > 0 && target_height > 0,
        r is Err ==> r == Err::<Vec<Vec<DisplayCell>>, RenderError>(
            RenderError::InvalidDimension,
        ),
        r matches Ok(grid) ==> is_rendering(
            grid@,
            pixels@,
            bitmap_width,
            bitmap_height,
            target_width,
            target_height,
            ratio,
            mode,
        ),
{
    if target_width == 0 || target_height == 0 {
        return Err(RenderError::InvalidDimension);
    }
    Ok(cells_of(pixels, bitmap_width, bitmap_height, target_width, target_height, ratio, mode))
}

/// Renders a rasterized glyph as `target_height` lines of text, each the text
/// of `target_width` cells. A zero width or height is refused.
pub fn render_lines(
    pixels: &[u8],
    bitmap_width: usize,
    bitmap_height: usize,
    target_width: usize,
    target_height: usize,
    ratio: AspectRatio,
    mode: RenderMode,
) -> (r: Result<Vec<String>, RenderError>)
    ensures
        r is Ok <==> target_width > 0 && target_height > 0,
        r is Err ==> r == Err::<Vec<String>, RenderError>(RenderError::InvalidDimension),
        r matches Ok(lines) ==> is_rendered_text(
            lines@,
            pixels@,
            bitmap_width,
            bitmap_height,
            target_width,
            target_height,
            ratio,
            mode,
        ),
{
    if target_width == 0 || target_height == 0 {
        return Err(RenderError::InvalidDimension);
    }
    let grid = cells_of(
        pixels,
        bitmap_width,
        bitmap_height,
        target_width,
        target_height,
        ratio,
        mode,
    );
    Ok(lines_of(&grid))
}

/// Renders a rasterized glyph under `mode`, for cells of the standard ratio.
pub fn render_char_with_mode(
    pixels: &[u8],
    bitmap_width: usize,
    bitmap_height: usize,
    width: usize,
    height: usize,
    mode: RenderMode,
) -> (r: Result<Vec<String>, RenderError>)
    ensures
        r is Ok <==> width > 0 && height > 0,
        r is Err ==> r == Err::<Vec<String>, RenderError>(RenderError::InvalidDimension),
        r matches Ok(lines) ==> is_rendered_text(
            lines@,
            pixels@,
            bitmap_width,
            bitmap_height,
            width,
            height,
            AspectRatio::standard(),
            mode,
        ),
{
    render_lines(
        pixels,
        bitmap_width,
        bitmap_height,
        width,
        height,
        AspectRatio::standard(),
        mode,
    )
}

/// Renders a rasterized glyph in the default mode, the density ramp without
/// colour, for cells of the given ratio: `height` lines of `width` characters
/// each.
pub fn render_char_with_aspect_ratio(
    pixels: &[u8],
    bitmap_width: usize,
    bitmap_height: usize,
    width: usize,
    height: usize,
    ratio: AspectRatio,
) -> (r: Result<Vec<String>, RenderError>)
    ensures
        r is Ok <==> width > 0 && height > 0,
        r is Err ==> r == Err::<Vec<String>, RenderError>(RenderError::InvalidDimension),
        r matches Ok(lines) ==> {
            &&& is_rendered_text(
                lines@,
                pixels@,
                bitmap_width,
                bitmap_height,
                width,
                height,
                ratio,
                default_mode(),
            )
            &&& is_plain_text(
                lines@,
                pixels@,
                bitmap_width,
                bitmap_height,
                width,
                height,
                ratio,
                CharacterSet::Density,
            )
        },
{
    match render_lines(
        pixels,
        bitmap_width,
        bitmap_height,
        width,
        height,
        ratio,
        RenderMode::default(),
    ) {
        Ok(lines) => {
            proof {
                lemma_uncoloured_text_is_plain(
                    lines@,
                    pixels@,
                    bitmap_width,
                    bitmap_height,
                    width,
                    height,
                    ratio,
                    CharacterSet::Density,
                );
            }
            Ok(lines)
        },
        Err(error) => Err(error),
    }
}

/// Renders a rasterized glyph in the default mode, the density ramp without
/// colour, for cells of the standard ratio: `height` lines of `width`
/// characters each.
pub fn render_char(
    pixels: &[u8],
    bitmap_width: usize,
    bitmap_height: usize,
    width: usize,
    height: usize,
) -> (r: Result<Vec<String>, RenderError>)
    ensures
        r is Ok <==> width > 0 && height > 0,
        r is Err ==> r == Err::<Vec<String>, RenderError>(RenderError::InvalidDimension),
        r matches Ok(lines) ==> {
            &&& is_rendered_text(
                lines@,
                pixels@,
                bitmap_width,
                bitmap_height,
                width,
                height,
                AspectRatio::standard(),
                default_mode(),
            )
            &&& is_plain_text(
                lines@,
                pixels@,
                bitmap_width,
                bitmap_height,
                width,
                height,
                AspectRatio::standard(),
                CharacterSet::Density,
            )
        },
{
    render_char_with_aspect_ratio(
        pixels,
        bitmap_width,
        bitmap_height,
        width,
        height,
        AspectRatio::standard(),
    )
}

/// Draws a bitmap by simple thresholding: a filled character where the
/// sampled intensity exceeds the midpoint, a blank elsewhere. Every grid size
/// is served, an empty one with no lines or with empty lines.
pub fn bitmap_to_ascii(
    bitmap: &[u8],
    bitmap_width: usize,
    bitmap_height: usize,
    target_width: usize,
    target_height: usize,
    aspect_ratio: AspectRatio,
) -> (r: Result<Vec<String>, String>)
    ensures
        r is Ok,
        r matches Ok(lines) ==> is_plain_text(
            lines@,
            bitmap@,
            bitmap_width,
            bitmap_height,
            target_width,
            target_height,
            aspect_ratio,
            CharacterSet::Blocks,
        ),
{
    let grid = cells_of(
        bitmap,
        bitmap_width,
        bitmap_height,
        target_width,
        target_height,
        aspect_ratio,
        RenderMode { charset: CharacterSet::Blocks, colors: ColorMode::Plain },
    );
    let lines = lines_of(&grid);
    proof {
        lemma_uncoloured_text_is_plain(
            lines@,
            bitmap@,
            bitmap_width,
            bitmap_height,
            target_width,
            target_height,
            aspect_ratio,
            CharacterSet::Blocks,
        );
    }
    Ok(lines)
}

} // verus!
