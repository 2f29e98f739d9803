//! Resamples a coverage bitmap into a grid of the requested size.
//!
//! Sampling is nearest-neighbour: each cell of the grid reads exactly one
//! pixel, and a cell whose pixel would fall outside the buffer reads 0.

use crate::arith::lemma_product_fits;
use crate::aspect::AspectRatio;
use vstd::arithmetic::div_mod::{
    lemma_div_by_multiple, lemma_div_denominator, lemma_multiply_divide_lt,
};
use vstd::prelude::*;

verus! {

/// The bitmap column read by grid column `col`: columns map one to one into
/// physical space, which is then scaled by `bitmap_width / target_width`.
pub open spec fn source_col(col: int, bitmap_width: int, target_width: int) -> int {
    (col * bitmap_width) / target_width
}

/// The bitmap row read by grid row `row`. The row stands at the physical
/// height `row * ratio`, and physical heights are scaled by
/// `bitmap_height / (target_height * ratio)`; this is the floor of their
/// product, with `ratio` written out as its fraction.
pub open spec fn source_row(
    row: int,
    bitmap_height: int,
    target_height: int,
    ratio: AspectRatio,
) -> int {
    ((row * ratio.numer()) * (bitmap_height * ratio.denom())) / (ratio.denom() * (target_height
        * ratio.numer()))
}

/// A bitmap without ink: an empty buffer, or no columns, or no rows.
pub open spec fn is_blank(pixels: Seq<u8>, bitmap_width: usize, bitmap_height: usize) -> bool {
    pixels.len() == 0 || bitmap_width == 0 || bitmap_height == 0
}

/// The intensity of the grid cell at (`row`, `col`).
pub open spec fn sample_at(
    pixels: Seq<u8>,
    bitmap_width: usize,
    bitmap_height: usize,
    target_width: usize,
    target_height: usize,
    ratio: AspectRatio,
    row: int,
    col: int,
) -> u8 {
    let index = source_row(row, bitmap_height as int, target_height as int, ratio)
        * bitmap_width + source_col(col, bitmap_width as int, target_width as int);
    if is_blank(pixels, bitmap_width, bitmap_height) {
        0
    } else if 0 <= index < pixels.len() {
        pixels[index]
    } else {
        0
    }
}

/// The intensities of grid row `row`, left to right.
pub open spec fn sample_row(
    pixels: Seq<u8>,
    bitmap_width: usize,
    bitmap_height: usize,
    target_width: usize,
    target_height: usize,
    ratio: AspectRatio,
    row: int,
) -> Seq<u8> {
    Seq::new(
        target_width as nat,
        |col: int|
            sample_at(
                pixels,
                bitmap_width,
                bitmap_height,
                target_width,
                target_height,
                ratio,
                row,
                col,
            ),
    )
}

/// The aspect ratio cancels out of the row mapping: grid row `row` reads
/// bitmap row `floor(row * bitmap_height / target_height)` whatever the ratio.
/// The ratio shapes the picture through the raster size, not through the
/// choice of rows.
pub proof fn lemma_source_row_ratio_free(
    row: int,
    bitmap_height: int,
    target_height: int,
    ratio: AspectRatio,
)
    requires
        ratio.wf(),
        0 <= row,
        0 <= bitmap_height,
        0 < target_height,
    ensures
        source_row(row, bitmap_height, target_height, ratio) == (row * bitmap_height)
            / target_height,
{
    let n = ratio.numer() as int;
    let d = ratio.denom() as int;
    let k = n * d;
    let x = row * bitmap_height;
    assert(k > 0) by (nonlinear_arith)
        requires
            k == n * d,
            n > 0,
            d > 0,
    ;
    assert(x >= 0) by (nonlinear_arith)
        requires
            x == row * bitmap_height,
            row >= 0,
            bitmap_height >= 0,
    ;
    assert((row * n) * (bitmap_height * d) == x * k) by (nonlinear_arith)
        requires
            k == n * d,
            x == row * bitmap_height,
    ;
    assert(d * (target_height * n) == k * target_height) by (nonlinear_arith)
        requires
            k == n * d,
    ;
    assert(x * k >= 0) by (nonlinear_arith)
        requires
            x >= 0,
            k > 0,
    ;
    lemma_div_denominator(x * k, k, target_height);
    lemma_div_by_multiple(x, k);
}

/// The sampled intensity does not depend on the aspect ratio: for one bitmap
/// and one grid, any two ratios give the same intensity at every cell.
pub proof fn lemma_sample_ratio_free(
    pixels: Seq<u8>,
    bitmap_width: usize,
    bitmap_height: usize,
    target_width: usize,
    target_height: usize,
    a: AspectRatio,
    b: AspectRatio,
    row: int,
    col: int,
)
    requires
        a.wf(),
        b.wf(),
        0 <= row < target_height,
    ensures
        sample_at(pixels, bitmap_width, bitmap_height, target_width, target_height, a, row, col)
            == sample_at(
            pixels,
            bitmap_width,
            bitmap_height,
            target_width,
            target_height,
            b,
            row,
            col,
        ),
{
    lemma_source_row_ratio_free(row, bitmap_height as int, target_height as int, a);
    lemma_source_row_ratio_free(row, bitmap_height as int, target_height as int, b);
}

/// A scaled coordinate stays inside the source: for `0 <= i < dst` the value
/// `floor(i * src / dst)` is at least 0 and, where `src > 0`, below `src`.
proof fn lemma_scaled_in_range(i: int, src: int, dst: int)
    requires
        0 <= i < dst,
        0 <= src,
    ensures
        0 <= (i * src) / dst,
        src > 0 ==> (i * src) / dst < src,
{
    assert(0 <= i * src) by (nonlinear_arith)
        requires
            0 <= i,
            0 <= src,
    ;
    vstd::arithmetic::div_mod::lemma_div_pos_is_pos(i * src, dst);
    if src > 0 {
        assert(i * src < dst * src) by (nonlinear_arith)
            requires
                0 <= i < dst,
                0 < src,
        ;
        lemma_multiply_divide_lt(i * src, dst, src);
    }
}

/// In a bitmap whose buffer holds exactly `bitmap_width * bitmap_height`
/// pixels, in rows, every cell of the grid reads a pixel of the buffer: the
/// guard against indices outside it never applies.
pub proof fn lemma_sample_reads_buffer(
    pixels: Seq<u8>,
    bitmap_width: usize,
    bitmap_height: usize,
    target_width: usize,
    target_height: usize,
    ratio: AspectRatio,
    row: int,
    col: int,
)
    requires
        ratio.wf(),
        pixels.len() == bitmap_width * bitmap_height,
        pixels.len() > 0,
        0 <= row < target_height,
        0 <= col < target_width,
    ensures
        0 <= (row * bitmap_height) / (target_height as int) < bitmap_height,
        0 <= (col * bitmap_width) / (target_width as int) < bitmap_width,
        0 <= ((row * bitmap_height) / (target_height as int)) * bitmap_width + (col
            * bitmap_width) / (target_width as int) < pixels.len(),
        sample_at(
            pixels,
            bitmap_width,
            bitmap_height,
            target_width,
            target_height,
            ratio,
            row,
            col,
        ) == pixels[((row * bitmap_height) / (target_height as int)) * bitmap_width + (col
            * bitmap_width) / (target_width as int)],
{
    let bw = bitmap_width as int;
    let bh = bitmap_height as int;
    assert(bw > 0 && bh > 0) by (nonlinear_arith)
        requires
            bw * bh > 0,
            bw >= 0,
            bh >= 0,
    ;
    lemma_source_row_ratio_free(row, bh, target_height as int, ratio);
    lemma_scaled_in_range(row, bh, target_height as int);
    lemma_scaled_in_range(col, bw, target_width as int);
    let y = (row * bh) / (target_height as int);
    let x = (col * bw) / (target_width as int);
    assert(0 <= y * bw + x < bw * bh) by (nonlinear_arith)
        requires
            0 <= y < bh,
            0 <= x < bw,
    ;
}

/// Sampling a bitmap into a grid of its own size copies it: where the buffer
/// holds `width * height` pixels, the cell at (`row`, `col`) reads the pixel
/// at (`row`, `col`).
pub proof fn lemma_same_size_sampling_copies(
    pixels: Seq<u8>,
    width: usize,
    height: usize,
    ratio: AspectRatio,
    row: int,
    col: int,
)
    requires
        ratio.wf(),
        pixels.len() == width * height,
        0 <= row < height,
        0 <= col < width,
    ensures
        0 <= row * width + col < pixels.len(),
        sample_at(pixels, width, height, width, height, ratio, row, col) == pixels[row * width
            + col],
{
    assert(width * height > 0) by (nonlinear_arith)
        requires
            width > 0,
            height > 0,
    ;
    lemma_sample_reads_buffer(pixels, width, height, width, height, ratio, row, col);
    lemma_div_by_multiple(row, height as int);
    lemma_div_by_multiple(col, width as int);
}

/// Samples one cell of the grid.
fn sample_cell(
    pixels: &[u8],
    bitmap_width: usize,
    bitmap_height: usize,
    target_width: usize,
    target_height: usize,
    ratio: AspectRatio,
    row: usize,
    col: usize,
) -> (value: u8)
    requires
        row < target_height,
        col < target_width,
    ensures
        value == sample_at(
            pixels@,
            bitmap_width,
            bitmap_height,
            target_width,
            target_height,
            ratio,
            row as int,
            col as int,
        ),
{
    if pixels.len() == 0 || bitmap_width == 0 || bitmap_height == 0 {
        return 0;
    }
    proof {
        use_type_invariant(ratio);
        lemma_source_row_ratio_free(
            row as int,
            bitmap_height as int,
            target_height as int,
            ratio,
        );
        lemma_scaled_in_range(row as int, bitmap_height as int, target_height as int);
        lemma_scaled_in_range(col as int, bitmap_width as int, target_width as int);
        lemma_product_fits(row as int, bitmap_height as int);
        lemma_product_fits(col as int, bitmap_width as int);
    }
    let y: u128 = ((row as u128) * (bitmap_height as u128)) / (target_height as u128);
    let x: u128 = ((col as u128) * (bitmap_width as u128)) / (target_width as u128);
    proof {
        lemma_product_fits(y as int, bitmap_width as int);
    }
    let index: u128 = y * (bitmap_width as u128) + x;
    if index < pixels.len() as u128 {
        pixels[index as usize]
    } else {
        0
    }
}

/// Resamples the bitmap `pixels`, `bitmap_width` pixels to the row, into a
/// grid of `target_height` rows of `target_width` intensities each. A blank
/// bitmap gives a grid of zeros.
pub fn sample(
    pixels: &[u8],
    bitmap_width: usize,
    bitmap_height: usize,
    target_width: usize,
    target_height: usize,
    ratio: AspectRatio,
) -> (grid: Vec<Vec<u8>>)
    ensures
        grid@.len() == target_height,
        forall|row: int|
            0 <= row < target_height ==> (#[trigger] grid@[row])@ == sample_row(
                pixels@,
                bitmap_width,
                bitmap_height,
                target_width,
                target_height,
                ratio,
                row,
            ),
{
    let mut grid: Vec<Vec<u8>> = Vec::new();
    let mut row: usize = 0;
    while row < target_height
        invariant
            row <= target_height,
            grid@.len() == row,
            forall|r: int|
                0 <= r < row ==> (#[trigger] grid@[r])@ == sample_row(
                    pixels@,
                    bitmap_width,
                    bitmap_height,
                    target_width,
                    target_height,
                    ratio,
                    r,
                ),
        decreases target_height - row,
    {
        let mut line: Vec<u8> = Vec::new();
        let mut col: usize = 0;
        while col < target_width
            invariant
                row < target_height,
                col <= target_width,
                line@.len() == col,
                forall|c: int|
                    0 <= c < col ==> #[trigger] line@[c] == sample_at(
                        pixels@,
                        bitmap_width,
                        bitmap_height,
                        target_width,
                        target_height,
                        ratio,
                        row as int,
                        c,
                    ),
            decreases target_width - col,
        {
            let value = sample_cell(
                pixels,
                bitmap_width,
                bitmap_height,
                target_width,
                target_height,
                ratio,
                row,
                col,
            );
            line.push(value);
            col += 1;
        }
        assert(line@ =~= sample_row(
            pixels@,
            bitmap_width,
            bitmap_height,
            target_width,
            target_height,
            ratio,
            row as int,
        ));
        grid.push(line);
        row += 1;
    }
    grid
}

} // verus!
