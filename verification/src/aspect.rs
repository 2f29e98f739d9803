//! The cell aspect ratio and the size at which a glyph should be rasterized.
//!
//! Ratios and sizes are exact fractions of integers, so every statement about
//! them is a statement about products of integers.

use crate::arith::lemma_product_fits;
use crate::mode::RenderError;
use vstd::prelude::*;

verus! {

/// The height-to-width ratio of one terminal cell, as the positive fraction
/// `numer / denom`.
#[derive(Clone, Copy, Debug, PartialEq, Eq)]
pub struct AspectRatio {
    numer: u64,
    denom: u64,
}

impl AspectRatio {
    pub closed spec fn spec_numer(&self) -> u64 {
        self.numer
    }

    pub closed spec fn spec_denom(&self) -> u64 {
        self.denom
    }

    /// Both parts of the fraction are positive. Every value that executable
    /// code can hold satisfies this.
    #[verifier::type_invariant]
    pub open spec fn wf(&self) -> bool {
        self.spec_numer() > 0 && self.spec_denom() > 0
    }

    /// The ratio `numer / denom`; refused unless both are positive.
    pub fn new(numer: u64, denom: u64) -> (r: Result<AspectRatio, RenderError>)
        ensures
            r is Ok <==> numer > 0 && denom > 0,
            r is Err ==> r == Err::<AspectRatio, RenderError>(RenderError::InvalidDimension),
            r matches Ok(ratio) ==> ratio.wf() && ratio.numer() == numer && ratio.denom()
                == denom,
    {
        if numer == 0 || denom == 0 {
            Err(RenderError::InvalidDimension)
        } else {
            Ok(AspectRatio { numer, denom })
        }
    }

    /// The ratio 2 / 1.
    pub closed spec fn spec_standard() -> AspectRatio {
        AspectRatio { numer: 2, denom: 1 }
    }

    /// Cells twice as tall as wide, the shape of a traditional terminal font.
    #[verifier::when_used_as_spec(spec_standard)]
    pub fn standard() -> (ratio: AspectRatio)
        ensures
            ratio == AspectRatio::standard(),
            ratio.wf(),
            ratio.numer() == 2,
            ratio.denom() == 1,
    {
        AspectRatio { numer: 2, denom: 1 }
    }

    /// The standard ratio is the fraction 2 / 1.
    pub proof fn lemma_standard()
        ensures
            AspectRatio::standard().wf(),
            AspectRatio::standard().numer() == 2,
            AspectRatio::standard().denom() == 1,
    {
    }

    #[verifier::when_used_as_spec(spec_numer)]
    pub fn numer(&self) -> (n: u64)
        ensures
            n == self.numer(),
            n > 0,
    {
        proof {
            use_type_invariant(self);
        }
        self.numer
    }

    #[verifier::when_used_as_spec(spec_denom)]
    pub fn denom(&self) -> (d: u64)
        ensures
            d == self.denom(),
            d > 0,
    {
        proof {
            use_type_invariant(self);
        }
        self.denom
    }
}

impl Default for AspectRatio {
    fn default() -> (ratio: AspectRatio)
        ensures
            ratio == AspectRatio::standard(),
            ratio.wf(),
            ratio.numer() == 2,
            ratio.denom() == 1,
    {
        AspectRatio::standard()
    }
}

/// A rasterization size in pixels, as the fraction `numer / denom`.
#[derive(Clone, Copy, Debug, PartialEq, Eq, Structural)]
pub struct RasterSize {
    pub numer: u128,
    pub denom: u64,
}

/// The numerator, over the ratio's denominator, of the larger of the physical
/// width `width` and the physical height `height * ratio`.
pub open spec fn raster_numer(width: usize, height: usize, ratio: AspectRatio) -> nat {
    let wide = (width as nat) * (ratio.denom() as nat);
    let tall = (height as nat) * (ratio.numer() as nat);
    if wide >= tall {
        wide
    } else {
        tall
    }
}

/// The size to ask of the rasterizer for a grid of `width` by `height` cells:
/// the larger of the physical width and the physical height, so that neither
/// axis is under-resolved. A zero width or height is refused.
pub fn compute_raster_size(width: usize, height: usize, ratio: AspectRatio) -> (r: Result<
    RasterSize,
    RenderError,
>)
    ensures
        r is Ok <==> width > 0 && height > 0,
        r is Err ==> r == Err::<RasterSize, RenderError>(RenderError::InvalidDimension),
        r matches Ok(size) ==> {
            &&& size.denom == ratio.denom()
            &&& size.numer == raster_numer(width, height, ratio)
            &&& size.numer >= width * size.denom
            &&& size.numer >= height * ratio.numer()
            &&& size.numer > 0
            &&& size.denom > 0
        },
{
    if width == 0 || height == 0 {
        return Err(RenderError::InvalidDimension);
    }
    let numer: u64 = ratio.numer();
    let denom: u64 = ratio.denom();
    proof {
        lemma_product_fits(width as int, denom as int);
        lemma_product_fits(height as int, numer as int);
    }
    let wide: u128 = (width as u128) * (denom as u128);
    let tall: u128 = (height as u128) * (numer as u128);
    let larger: u128 = if wide >= tall {
        wide
    } else {
        tall
    };
    Ok(RasterSize { numer: larger, denom })
}

/// A taller cell asks for a larger raster wherever the physical height
/// decides: for ratios `a < b` and a grid whose physical height under `b`
/// exceeds its width, the size under `a` is strictly below the size under `b`.
pub proof fn lemma_taller_cells_need_larger_raster(
    width: usize,
    height: usize,
    a: AspectRatio,
    b: AspectRatio,
)
    requires
        a.wf(),
        b.wf(),
        a.numer() * b.denom() < b.numer() * a.denom(),
        width * b.denom() < height * b.numer(),
    ensures
        raster_numer(width, height, a) * b.denom() < raster_numer(width, height, b) * a.denom(),
{
    let w = width as int;
    let h = height as int;
    let an = a.numer() as int;
    let ad = a.denom() as int;
    let bn = b.numer() as int;
    let bd = b.denom() as int;
    assert(raster_numer(width, height, b) == h * bn);
    assert(h > 0) by (nonlinear_arith)
        requires
            w * bd < h * bn,
            w >= 0,
            bd > 0,
            bn > 0,
            h >= 0,
    ;
    assert((w * ad) * bd < (h * bn) * ad) by (nonlinear_arith)
        requires
            w * bd < h * bn,
            ad > 0,
    ;
    assert((h * an) * bd < (h * bn) * ad) by (nonlinear_arith)
        requires
            an * bd < bn * ad,
            h > 0,
    ;
}

} // verus!
