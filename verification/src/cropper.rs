//! Fitting an image to a canvas that it may overhang on any side.

use crate::raster::{Raster, RasterBuffer, Rgba};
use vstd::prelude::*;

verus! {

/// The smaller of two numbers.
pub open spec fn least(a: int, b: int) -> int {
    if a <= b {
        a
    } else {
        b
    }
}

/// The cut-out of `src` that starts at `(x, y)` and is `width` by `height`
/// large, as far as it lies inside `src`: the corner is first pulled back to
/// the far edges, then the size is cut down to what is left from there.
pub open spec fn cropped(src: Raster, x: nat, y: nat, width: nat, height: nat) -> Raster {
    let left = least(x as int, src.width as int);
    let top = least(y as int, src.height as int);
    Raster::build(
        least(width as int, src.width - left) as nat,
        least(height as int, src.height - top) as nat,
        |i: int, j: int| src.pixel(left + i, top + j),
    )
}

/// The cut-out as far as it has been copied: the first `rows` rows and the
/// first `columns` places of the next one, on a transparent raster.
spec fn cropped_part(
    src: Raster,
    x: nat,
    y: nat,
    width: nat,
    height: nat,
    rows: int,
    columns: int,
) -> Raster {
    let cut = cropped(src, x, y, width, height);
    Raster::build(
        cut.width,
        cut.height,
        |i: int, j: int|
            if j < rows || (j == rows && i < columns) {
                cut.pixel(i, j)
            } else {
                Rgba::clear()
            },
    )
}

/// Cuts the rectangle that starts at `(x, y)` and is `width` by `height`
/// large out of `img`, as far as it lies inside `img`: a corner past a far
/// edge is pulled back to it, and the size is cut down to what is left from
/// the corner.
pub fn crop(img: &RasterBuffer, x: u32, y: u32, width: u32, height: u32) -> (out: RasterBuffer)
    ensures
        out@ == cropped(img@, x as nat, y as nat, width as nat, height as nat),
{
    let left = if x < img.width() {
        x
    } else {
        img.width()
    };
    let top = if y < img.height() {
        y
    } else {
        img.height()
    };
    let across = if width < img.width() - left {
        width
    } else {
        img.width() - left
    };
    let down = if height < img.height() - top {
        height
    } else {
        img.height() - top
    };
    let mut out = img.blank_within(across, down);
    proof {
        img.lemma_view();
        assert(out@ =~~= cropped_part(img@, x as nat, y as nat, width as nat, height as nat, 0, 0));
    }
    let mut j: u32 = 0;
    while j < down
        invariant
            j <= down,
            img@.width <= u32::MAX,
            img@.height <= u32::MAX,
            left == least(x as int, img@.width as int),
            top == least(y as int, img@.height as int),
            across == least(width as int, img@.width - left),
            down == least(height as int, img@.height - top),
            out@ == cropped_part(
                img@,
                x as nat,
                y as nat,
                width as nat,
                height as nat,
                j as int,
                0,
            ),
        decreases down - j,
    {
        let mut i: u32 = 0;
        while i < across
            invariant
                j < down,
                i <= across,
                img@.width <= u32::MAX,
                img@.height <= u32::MAX,
                left == least(x as int, img@.width as int),
                top == least(y as int, img@.height as int),
                across == least(width as int, img@.width - left),
                down == least(height as int, img@.height - top),
                out@ == cropped_part(
                    img@,
                    x as nat,
                    y as nat,
                    width as nat,
                    height as nat,
                    j as int,
                    i as int,
                ),
            decreases across - i,
        {
            let p = img.get_pixel(left + i, top + j);
            out.put_pixel(i, j, p);
            proof {
                assert(out@ =~~= cropped_part(
                    img@,
                    x as nat,
                    y as nat,
                    width as nat,
                    height as nat,
                    j as int,
                    i + 1,
                ));
            }
            i = i + 1;
        }
        proof {
            assert(cropped_part(
                img@,
                x as nat,
                y as nat,
                width as nat,
                height as nat,
                j as int,
                across as int,
            ) =~~= cropped_part(img@, x as nat, y as nat, width as nat, height as nat, j + 1, 0));
        }
        j = j + 1;
    }
    proof {
        assert(cropped_part(
            img@,
            x as nat,
            y as nat,
            width as nat,
            height as nat,
            down as int,
            0,
        ) =~~= cropped(img@, x as nat, y as nat, width as nat, height as nat));
    }
    out
}

/// How an image is fitted along one axis: the samples dropped at its leading
/// edge, the samples kept after them, and where the kept part is placed.
#[derive(Clone, Copy, Debug, PartialEq, Eq, Structural)]
pub struct AxisFit {
    pub skip: u32,
    pub keep: u32,
    pub position: u32,
}

/// The fit of an image of length `size`, meant to start at `placement`, on a
/// canvas of length `max`.
///
/// Where the far edge passes the canvas, the trailing edge is cut so that
/// the image ends at the canvas's end, and the image is placed at
/// `placement` or, if that is negative, at 0; nothing is kept where that
/// place is past the canvas. Else, where `placement` is negative, that many
/// samples are dropped at the leading edge and the rest is placed at 0;
/// nothing is kept where the whole image lies before the canvas. Else the
/// image is kept whole and placed at `placement`.
pub open spec fn fitted(size: u32, placement: i32, max: u32) -> AxisFit {
    if placement + size > max {
        let position: int = if placement < 0 {
            0
        } else {
            placement as int
        };
        AxisFit {
            skip: 0,
            keep: (if position <= max {
                max - position
            } else {
                0
            }) as u32,
            position: position as u32,
        }
    } else if placement < 0 {
        AxisFit {
            skip: least(-placement, size as int) as u32,
            keep: (size - least(-placement, size as int)) as u32,
            position: 0,
        }
    } else {
        AxisFit { skip: 0, keep: size, position: placement as u32 }
    }
}

/// What is kept lies inside the image, and, unless the image was meant to
/// start past the canvas, the placed part lies inside the canvas.
pub proof fn lemma_fitted_within(size: u32, placement: i32, max: u32)
    ensures
        fitted(size, placement, max).skip + fitted(size, placement, max).keep <= size,
        placement <= max ==> fitted(size, placement, max).position + fitted(
            size,
            placement,
            max,
        ).keep <= max,
        placement < 0 ==> fitted(size, placement, max).position == 0,
        placement >= 0 ==> fitted(size, placement, max).position == placement,
{
}

/// Computes the fit of an image along one axis.
pub fn fit_axis(size: u32, placement: i32, max: u32) -> (fit: AxisFit)
    ensures
        fit == fitted(size, placement, max),
{
    let far: i64 = placement as i64 + size as i64;
    if far > max as i64 {
        let position: u32 = if placement < 0 {
            0
        } else {
            placement as u32
        };
        let keep: u32 = if position <= max {
            max - position
        } else {
            0
        };
        AxisFit { skip: 0, keep, position }
    } else if placement < 0 {
        let before: i64 = -(placement as i64);
        let skip: u32 = if before <= size as i64 {
            before as u32
        } else {
            size
        };
        AxisFit { skip, keep: size - skip, position: 0 }
    } else {
        AxisFit { skip: 0, keep: size, position: placement as u32 }
    }
}

/// An image cut to fit a canvas, and where to place it.
#[derive(Debug)]
pub struct BoundaryCropOutput {
    pub image: RasterBuffer,
    pub x_pos: u32,
    pub y_pos: u32,
}

/// Fits `image`, meant to be placed at `(x_pos, y_pos)`, within the bounds
/// of a canvas of `max_width` by `max_height`: cuts it to what fits and
/// gives the place for the cut image. Each axis is fitted on its own, as
/// [`fitted`] says. An image that is cut away whole on an axis comes back
/// with length 0 on that axis, which is no failure. Unless the image was
/// meant to start past the canvas on an axis, the placed image ends inside
/// the canvas on that axis.
pub fn out_of_bounds_crop(
    image: RasterBuffer,
    x_pos: i32,
    y_pos: i32,
    max_width: u32,
    max_height: u32,
) -> (out: BoundaryCropOutput)
    ensures
        ({
            let across = fitted(image@.width as u32, x_pos, max_width);
            let down = fitted(image@.height as u32, y_pos, max_height);
            &&& out.x_pos == across.position
            &&& out.y_pos == down.position
            &&& out.image@.width == across.keep
            &&& out.image@.height == down.keep
            &&& out.image@ == Raster::build(
                across.keep as nat,
                down.keep as nat,
                |i: int, j: int| image@.pixel(across.skip + i, down.skip + j),
            )
        }),
        x_pos <= max_width ==> out.x_pos + out.image@.width <= max_width,
        y_pos <= max_height ==> out.y_pos + out.image@.height <= max_height,
{
    let width = image.width();
    let height = image.height();
    let across = fit_axis(width, x_pos, max_width);
    let down = fit_axis(height, y_pos, max_height);
    let cut = crop(&image, across.skip, down.skip, across.keep, down.keep);
    BoundaryCropOutput { image: cut, x_pos: across.position, y_pos: down.position }
}

} // verus!
