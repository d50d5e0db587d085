//! Overlaying one raster on another, by an alpha threshold.

use crate::raster::{Raster, RasterBuffer, Rgba};
use image::Pixel;
use vstd::prelude::*;

verus! {

/// What becomes of overlay samples at or below the threshold.
#[derive(Clone, Copy, Debug, PartialEq, Eq, Structural)]
pub enum CompositeMode {
    /// They are skipped: the destination keeps its sample.
    Stamp,
    /// They are blended into the destination's sample.
    Blend,
}

/// The overlay, placed at the given corner, does not lie inside the
/// destination.
#[derive(Clone, Copy, Debug, PartialEq, Eq, Structural)]
pub struct DimensionError {}

impl DimensionError {
    /// The text that describes the failure.
    pub fn to_string(&self) -> (text: String)
        ensures
            text@ == "The Image's dimensions are either too small or too large"@,
    {
        "The Image's dimensions are either too small or too large".to_owned()
    }
}

/// The sample that `image`'s source-over blend of `fg` onto `bg` gives. The
/// contracts ask for it only where `fg` is neither fully transparent nor
/// fully opaque: see [`mixed`].
pub uninterp spec fn blended(bg: Rgba, fg: Rgba) -> Rgba;

/// `image::Pixel::blend` on two `image::Rgba<u8>` samples: source-over
/// compositing of `fg` onto `bg`, worked out in floating point by the crate.
/// A fully transparent `fg` leaves `bg` as it is, and a fully opaque `fg`
/// takes its place.
#[verifier::external_body]
fn blend(bg: Rgba, fg: Rgba) -> (out: Rgba)
    ensures
        out == blended(bg, fg),
        fg.alpha == 0 ==> out == bg,
        fg.alpha == 255 ==> out == fg,
{
    let mut under = image::Rgba([bg.red, bg.green, bg.blue, bg.alpha]);
    let over = image::Rgba([fg.red, fg.green, fg.blue, fg.alpha]);
    under.blend(&over);
    Rgba { red: under.0[0], green: under.0[1], blue: under.0[2], alpha: under.0[3] }
}

/// Whether `overlay`, with its top-left corner at `(x, y)`, lies inside `base`.
pub open spec fn fits(base: Raster, overlay: Raster, x: int, y: int) -> bool {
    x + overlay.width <= base.width && y + overlay.height <= base.height
}

/// The source-over blend of `over` onto `under`: a fully transparent `over`
/// leaves `under` as it is, a fully opaque one takes its place, and one in
/// between is mixed with it as `image` does.
pub open spec fn mixed(under: Rgba, over: Rgba) -> Rgba {
    if over.alpha == 0 {
        under
    } else if over.alpha == 255 {
        over
    } else {
        blended(under, over)
    }
}

/// The destination sample once the overlay sample `over` has been laid on
/// `under`: `over` itself where its alpha is above the threshold; else
/// `under` when stamping, and the blend of the two when blending.
pub open spec fn laid_on(under: Rgba, over: Rgba, threshold: u8, mode: CompositeMode) -> Rgba {
    if over.alpha > threshold {
        over
    } else {
        match mode {
            CompositeMode::Stamp => under,
            CompositeMode::Blend => mixed(under, over),
        }
    }
}

/// The destination after the overlay samples of the first `rows` rows, and
/// of the first `columns` places of the row after them, were laid on it.
spec fn composed_part(
    base: Raster,
    overlay: Raster,
    x: int,
    y: int,
    threshold: u8,
    mode: CompositeMode,
    rows: int,
    columns: int,
) -> Raster {
    Raster::build(
        base.width,
        base.height,
        |px: int, py: int|
            if overlay.contains(px - x, py - y) && (py - y < rows || (py - y == rows && px - x
                < columns)) {
                laid_on(base.pixel(px, py), overlay.pixel(px - x, py - y), threshold, mode)
            } else {
                base.pixel(px, py)
            },
    )
}

/// The destination after the whole overlay, with its top-left corner at
/// `(x, y)`, was laid on it: inside the overlay's footprint each sample is
/// as [`laid_on`] says, outside it the destination's own.
pub open spec fn composed(
    base: Raster,
    overlay: Raster,
    x: int,
    y: int,
    threshold: u8,
    mode: CompositeMode,
) -> Raster {
    Raster::build(
        base.width,
        base.height,
        |px: int, py: int|
            if overlay.contains(px - x, py - y) {
                laid_on(base.pixel(px, py), overlay.pixel(px - x, py - y), threshold, mode)
            } else {
                base.pixel(px, py)
            },
    )
}

/// Laying an overlay on a destination changes no sample outside the
/// overlay's footprint, and keeps the destination's dimensions.
pub proof fn lemma_composed_outside_footprint(
    base: Raster,
    overlay: Raster,
    x: int,
    y: int,
    threshold: u8,
    mode: CompositeMode,
    px: int,
    py: int,
)
    requires
        base.contains(px, py),
        !overlay.contains(px - x, py - y),
    ensures
        composed(base, overlay, x, y, threshold, mode).pixel(px, py) == base.pixel(px, py),
        composed(base, overlay, x, y, threshold, mode).width == base.width,
        composed(base, overlay, x, y, threshold, mode).height == base.height,
{
}

/// Blending is stamping where every overlay sample is above the threshold
/// or fully transparent.
pub proof fn lemma_blend_is_stamp(base: Raster, overlay: Raster, x: int, y: int, threshold: u8)
    requires
        forall|i: int, k: int|
            overlay.contains(i, k) ==> (#[trigger] overlay.pixel(i, k)).alpha > threshold
                || overlay.pixel(i, k).alpha == 0,
    ensures
        composed(base, overlay, x, y, threshold, CompositeMode::Blend) == composed(
            base,
            overlay,
            x,
            y,
            threshold,
            CompositeMode::Stamp,
        ),
{
    assert(composed(base, overlay, x, y, threshold, CompositeMode::Blend) =~~= composed(
        base,
        overlay,
        x,
        y,
        threshold,
        CompositeMode::Stamp,
    ));
}

/// Lays `overlay` on `base` with its top-left corner at `(x, y)`.
///
/// Fails, and leaves `base` as it was, exactly when the overlay does not lie
/// inside `base` there. Else every overlay sample whose alpha is above
/// `threshold` replaces the sample under it, alpha included; the others are
/// skipped when stamping and blended into the sample under them when
/// blending, which keeps the sample under a fully transparent one and
/// replaces it by a fully opaque one. No sample outside the overlay's
/// footprint changes.
pub fn composite(
    base: &mut RasterBuffer,
    overlay: &RasterBuffer,
    x: u32,
    y: u32,
    threshold: u8,
    mode: CompositeMode,
) -> (res: Result<(), DimensionError>)
    ensures
        res is Err <==> !fits(old(base)@, overlay@, x as int, y as int),
        res is Err ==> final(base)@ == old(base)@,
        res is Ok ==> final(base)@ == composed(
            old(base)@,
            overlay@,
            x as int,
            y as int,
            threshold,
            mode,
        ),
        final(base)@.width == old(base)@.width,
        final(base)@.height == old(base)@.height,
        forall|px: int, py: int|
            old(base)@.contains(px, py) && !overlay@.contains(px - x, py - y)
                ==> final(base)@.pixel(px, py) == old(base)@.pixel(px, py),
{
    let width = overlay.width();
    let height = overlay.height();
    proof {
        base.lemma_view();
    }
    let far_x: u64 = x as u64 + width as u64;
    let far_y: u64 = y as u64 + height as u64;
    if far_x > base.width() as u64 || far_y > base.height() as u64 {
        return Err(DimensionError {});
    }
    let ghost start = base@;
    proof {
        assert(start =~~= composed_part(start, overlay@, x as int, y as int, threshold, mode, 0, 0));
    }
    let mut k: u32 = 0;
    while k < height
        invariant
            k <= height,
            width == overlay@.width,
            height == overlay@.height,
            start.width <= u32::MAX,
            start.height <= u32::MAX,
            fits(start, overlay@, x as int, y as int),
            base@ == composed_part(start, overlay@, x as int, y as int, threshold, mode, k as int, 0),
        decreases height - k,
    {
        let mut i: u32 = 0;
        while i < width
            invariant
                k < height,
                i <= width,
                width == overlay@.width,
                height == overlay@.height,
                start.width <= u32::MAX,
                start.height <= u32::MAX,
                fits(start, overlay@, x as int, y as int),
                base@ == composed_part(
                    start,
                    overlay@,
                    x as int,
                    y as int,
                    threshold,
                    mode,
                    k as int,
                    i as int,
                ),
            decreases width - i,
        {
            let over = overlay.get_pixel(i, k);
            if over.alpha > threshold {
                base.put_pixel(i + x, k + y, over);
            } else {
                match mode {
                    CompositeMode::Stamp => {},
                    CompositeMode::Blend => {
                        let under = base.get_pixel(i + x, k + y);
                        base.put_pixel(i + x, k + y, blend(under, over));
                    },
                }
            }
            proof {
                let next = composed_part(
                    start,
                    overlay@,
                    x as int,
                    y as int,
                    threshold,
                    mode,
                    k as int,
                    i + 1,
                );
                assert(base@ =~~= next);
            }
            i = i + 1;
        }
        proof {
            let here = composed_part(
                start,
                overlay@,
                x as int,
                y as int,
                threshold,
                mode,
                k as int,
                width as int,
            );
            let next = composed_part(
                start,
                overlay@,
                x as int,
                y as int,
                threshold,
                mode,
                k + 1,
                0,
            );
            assert(here =~~= next);
        }
        k = k + 1;
    }
    proof {
        let done = composed_part(
            start,
            overlay@,
            x as int,
            y as int,
            threshold,
            mode,
            height as int,
            0,
        );
        let whole = composed(start, overlay@, x as int, y as int, threshold, mode);
        assert(done =~~= whole);
    }
    Ok(())
}

/// Overlaying by an alpha threshold, as methods of the destination.
pub trait AlphaImplementations: View<V = Raster> {
    /// Stamps `other` on this raster with its top-left corner at `(x, y)`:
    /// [`composite`] with [`CompositeMode::Stamp`].
    fn copy_within_alpha_threshold(
        &mut self,
        other: &RasterBuffer,
        x: u32,
        y: u32,
        threshold: u8,
    ) -> (res: Result<(), DimensionError>)
        ensures
            res is Err <==> !fits(old(self)@, other@, x as int, y as int),
            res is Err ==> final(self)@ == old(self)@,
            res is Ok ==> final(self)@ == composed(
                old(self)@,
                other@,
                x as int,
                y as int,
                threshold,
                CompositeMode::Stamp,
            ),
    ;

    /// Lays `other` on this raster with its top-left corner at `(x, y)`,
    /// blending what is at or below the threshold: [`composite`] with
    /// [`CompositeMode::Blend`].
    fn copy_with_blend(&mut self, other: &RasterBuffer, x: u32, y: u32, threshold: u8) -> (res:
        Result<(), DimensionError>)
        ensures
            res is Err <==> !fits(old(self)@, other@, x as int, y as int),
            res is Err ==> final(self)@ == old(self)@,
            res is Ok ==> final(self)@ == composed(
                old(self)@,
                other@,
                x as int,
                y as int,
                threshold,
                CompositeMode::Blend,
            ),
    ;
}

impl AlphaImplementations for RasterBuffer {
    fn copy_within_alpha_threshold(
        &mut self,
        other: &RasterBuffer,
        x: u32,
        y: u32,
        threshold: u8,
    ) -> (res: Result<(), DimensionError>) {
        composite(self, other, x, y, threshold, CompositeMode::Stamp)
    }

    fn copy_with_blend(&mut self, other: &RasterBuffer, x: u32, y: u32, threshold: u8) -> (res:
        Result<(), DimensionError>) {
        composite(self, other, x, y, threshold, CompositeMode::Blend)
    }
}

} // verus!
