//! Clearing the samples of a raster: outside a circle, or below an alpha.

use crate::raster::{Raster, RasterBuffer, Rgba};
use vstd::prelude::*;

verus! {

/// The square of the radius of the largest circle inside a raster of the
/// given dimensions: half the shorter side, rounded down, squared.
pub open spec fn radius_squared(width: nat, height: nat) -> int {
    let shorter: int = if width < height {
        width as int
    } else {
        height as int
    };
    (shorter / 2) * (shorter / 2)
}

/// Whether the place `(x, y)` lies outside that circle around the centre
/// `(width / 2, height / 2)`, both halves rounded down. The distances are
/// signed, so a place before the centre is as far away as one behind it.
pub open spec fn outside_circle(width: nat, height: nat, x: int, y: int) -> bool {
    (x - width / 2) * (x - width / 2) + (y - height / 2) * (y - height / 2) > radius_squared(
        width,
        height,
    )
}

/// The raster with every sample outside the circle made fully transparent.
pub open spec fn rounded(r: Raster) -> Raster {
    Raster::build(
        r.width,
        r.height,
        |x: int, y: int|
            if outside_circle(r.width, r.height, x, y) {
                Rgba::clear()
            } else {
                r.pixel(x, y)
            },
    )
}

/// The raster with the samples outside the circle made transparent in the
/// first `columns` columns, and in the first `rows` places of the next one.
spec fn rounded_part(r: Raster, columns: int, rows: int) -> Raster {
    Raster::build(
        r.width,
        r.height,
        |x: int, y: int|
            if outside_circle(r.width, r.height, x, y) && (x < columns || (x == columns && y
                < rows)) {
                Rgba::clear()
            } else {
                r.pixel(x, y)
            },
    )
}

/// Rounding twice is rounding once.
pub proof fn lemma_rounded_idempotent(r: Raster)
    ensures
        rounded(rounded(r)) == rounded(r),
{
    let once = rounded(r);
    let twice = rounded(once);
    assert(twice =~~= once);
}

/// Masks the raster to a circle: makes every sample outside the largest
/// circle inside the raster fully transparent, and leaves the others as
/// they are. Masking a masked raster changes nothing.
pub fn round_image(img: &mut RasterBuffer)
    ensures
        final(img)@ == rounded(old(img)@),
        final(img)@.width == old(img)@.width,
        final(img)@.height == old(img)@.height,
        forall|x: int, y: int|
            old(img)@.contains(x, y) ==> final(img)@.pixel(x, y) == if outside_circle(
                old(img)@.width,
                old(img)@.height,
                x,
                y,
            ) {
                Rgba::clear()
            } else {
                old(img)@.pixel(x, y)
            },
{
    let width = img.width();
    let height = img.height();
    let ghost start = img@;
    proof {
        img.lemma_view();
        assert(start =~~= rounded_part(start, 0, 0));
    }
    let shorter: i128 = if width < height {
        (width / 2) as i128
    } else {
        (height / 2) as i128
    };
    assert(0 <= shorter * shorter <= 0x1_0000_0000 * 0x1_0000_0000) by (nonlinear_arith)
        requires
            0 <= shorter <= 0x1_0000_0000,
    ;
    let limit: i128 = shorter * shorter;
    let mut x: u32 = 0;
    while x < width
        invariant
            x <= width,
            width == start.width,
            height == start.height,
            limit == radius_squared(start.width, start.height),
            img@ == rounded_part(start, x as int, 0),
        decreases width - x,
    {
        let across: i128 = x as i128 - (width / 2) as i128;
        assert(0 <= across * across <= 0x1_0000_0000 * 0x1_0000_0000) by (nonlinear_arith)
            requires
                -0x1_0000_0000 <= across <= 0x1_0000_0000,
        ;
        let across_squared: i128 = across * across;
        let mut y: u32 = 0;
        while y < height
            invariant
                x < width,
                y <= height,
                width == start.width,
                height == start.height,
                limit == radius_squared(start.width, start.height),
                across_squared == (x - width / 2) * (x - width / 2),
                0 <= across_squared <= 0x1_0000_0000 * 0x1_0000_0000,
                img@ == rounded_part(start, x as int, y as int),
            decreases height - y,
        {
            let down: i128 = y as i128 - (height / 2) as i128;
            assert(0 <= down * down <= 0x1_0000_0000 * 0x1_0000_0000) by (nonlinear_arith)
                requires
                    -0x1_0000_0000 <= down <= 0x1_0000_0000,
            ;
            if across_squared + down * down > limit {
                img.put_pixel(x, y, Rgba::clear());
            }
            proof {
                let next = rounded_part(start, x as int, y + 1);
                assert(img@ =~~= next);
            }
            y = y + 1;
        }
        proof {
            let here = rounded_part(start, x as int, height as int);
            let next = rounded_part(start, x + 1, 0);
            assert(here =~~= next);
        }
        x = x + 1;
    }
    proof {
        let done = rounded_part(start, width as int, 0);
        let whole = rounded(start);
        assert(done =~~= whole);
    }
}

/// The raster with every sample whose alpha is below `threshold` made fully
/// transparent.
pub open spec fn thresholded(r: Raster, threshold: u8) -> Raster {
    Raster::build(
        r.width,
        r.height,
        |x: int, y: int|
            if r.pixel(x, y).alpha < threshold {
                Rgba::clear()
            } else {
                r.pixel(x, y)
            },
    )
}

/// The raster with the samples below the threshold made transparent in the
/// first `rows` rows, and in the first `columns` places of the next one.
spec fn thresholded_part(r: Raster, threshold: u8, rows: int, columns: int) -> Raster {
    Raster::build(
        r.width,
        r.height,
        |x: int, y: int|
            if r.pixel(x, y).alpha < threshold && (y < rows || (y == rows && x < columns)) {
                Rgba::clear()
            } else {
                r.pixel(x, y)
            },
    )
}

/// Makes every sample whose alpha is below `threshold` fully transparent,
/// and leaves the others as they are.
pub fn apply_alpha_threshold(img: &mut RasterBuffer, threshold: u8)
    ensures
        final(img)@ == thresholded(old(img)@, threshold),
{
    let width = img.width();
    let height = img.height();
    let ghost start = img@;
    proof {
        img.lemma_view();
        assert(start =~~= thresholded_part(start, threshold, 0, 0));
    }
    let mut y: u32 = 0;
    while y < height
        invariant
            y <= height,
            width == start.width,
            height == start.height,
            img@ == thresholded_part(start, threshold, y as int, 0),
        decreases height - y,
    {
        let mut x: u32 = 0;
        while x < width
            invariant
                y < height,
                x <= width,
                width == start.width,
                height == start.height,
                img@ == thresholded_part(start, threshold, y as int, x as int),
            decreases width - x,
        {
            if img.get_pixel(x, y).alpha < threshold {
                img.put_pixel(x, y, Rgba::clear());
            }
            proof {
                let next = thresholded_part(start, threshold, y as int, x + 1);
                assert(img@ =~~= next);
            }
            x = x + 1;
        }
        proof {
            let here = thresholded_part(start, threshold, y as int, width as int);
            let next = thresholded_part(start, threshold, y + 1, 0);
            assert(here =~~= next);
        }
        y = y + 1;
    }
    proof {
        let done = thresholded_part(start, threshold, height as int, 0);
        let whole = thresholded(start, threshold);
        assert(done =~~= whole);
    }
}

} // verus!
