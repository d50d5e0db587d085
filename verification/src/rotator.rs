//! Scatter rotation followed by a three-by-three averaging pass.

use crate::raster::{Raster, RasterBuffer, Rgba};
use vstd::arithmetic::div_mod::lemma_fundamental_div_mod_converse;
use vstd::prelude::*;

verus! {

/// Where a destination lands once it is pulled back inside a raster of the
/// given dimensions: a coordinate past the far edge becomes the last one.
pub open spec fn clamped(to: (u32, u32), width: nat, height: nat) -> (int, int) {
    (
        if to.0 >= width {
            width - 1
        } else {
            to.0 as int
        },
        if to.1 >= height {
            height - 1
        } else {
            to.1 as int
        },
    )
}

/// Among the first `n` source samples, the last one that lands on `(x, y)`.
/// Source samples are counted column by column: sample `k` is the one in
/// column `k / height`, row `k % height`.
pub open spec fn last_writer(
    destinations: Seq<(u32, u32)>,
    width: nat,
    height: nat,
    x: int,
    y: int,
    n: nat,
) -> Option<int>
    decreases n,
{
    if n == 0 {
        None
    } else if clamped(destinations[n - 1], width, height) == (x, y) {
        Some(n - 1)
    } else {
        last_writer(destinations, width, height, x, y, (n - 1) as nat)
    }
}

/// The canvas after the first `n` source samples were written to their
/// destinations: each place shows the last sample that landed there, and is
/// transparent where none did.
pub open spec fn scattered_first(src: Raster, destinations: Seq<(u32, u32)>, n: nat) -> Raster {
    Raster::build(
        src.width,
        src.height,
        |x: int, y: int|
            match last_writer(destinations, src.width, src.height, x, y, n) {
                Some(k) => src.pixel(k / (src.height as int), k % (src.height as int)),
                None => Rgba::clear(),
            },
    )
}

/// The canvas after every source sample was written to its destination.
pub open spec fn scattered(src: Raster, destinations: Seq<(u32, u32)>) -> Raster {
    scattered_first(src, destinations, src.width * src.height)
}

/// The colour channels that the averaging pass works on.
pub enum Channel {
    Red,
    Green,
    Blue,
}

/// The value of one colour channel of a sample.
pub open spec fn channel(p: Rgba, c: Channel) -> int {
    match c {
        Channel::Red => p.red as int,
        Channel::Green => p.green as int,
        Channel::Blue => p.blue as int,
    }
}

/// What the place `(x, y)` adds to an average: its channel value, or nothing
/// when it lies outside the raster.
pub open spec fn tap(r: Raster, x: int, y: int, c: Channel) -> int {
    if r.contains(x, y) {
        channel(r.pixel(x, y), c)
    } else {
        0
    }
}

/// The taps of `(x, y)` and of the places above and below it.
pub open spec fn column_sum(r: Raster, x: int, y: int, c: Channel) -> int {
    tap(r, x, y - 1, c) + tap(r, x, y, c) + tap(r, x, y + 1, c)
}

/// The taps of the three-by-three block around `(x, y)`.
pub open spec fn box_sum(r: Raster, x: int, y: int, c: Channel) -> int {
    column_sum(r, x - 1, y, c) + column_sum(r, x, y, c) + column_sum(r, x + 1, y, c)
}

/// The averaged sample for `(x, y)`: each colour channel is the block's sum
/// divided by nine, whatever number of places lay inside, rounded down; the
/// sample is opaque.
pub open spec fn averaged(r: Raster, x: int, y: int) -> Rgba {
    Rgba {
        red: (box_sum(r, x, y, Channel::Red) / 9) as u8,
        green: (box_sum(r, x, y, Channel::Green) / 9) as u8,
        blue: (box_sum(r, x, y, Channel::Blue) / 9) as u8,
        alpha: 255,
    }
}

/// The raster after the averaging pass: every sample is the average of the
/// three-by-three block around its place in `r`. The pass reads `r` alone,
/// so that no average sees another.
pub open spec fn smoothed(r: Raster) -> Raster {
    Raster::build(r.width, r.height, |x: int, y: int| averaged(r, x, y))
}

/// The averaging pass as far as it has come: the averages of the first
/// `columns` columns and of the first `rows` places of the next one, on a
/// transparent raster.
spec fn smoothed_part(r: Raster, columns: int, rows: int) -> Raster {
    Raster::build(
        r.width,
        r.height,
        |x: int, y: int|
            if x < columns || (x == columns && y < rows) {
                averaged(r, x, y)
            } else {
                Rgba::clear()
            },
    )
}

/// The rotated raster: the scatter, then the averaging pass over it.
pub open spec fn rotated(src: Raster, destinations: Seq<(u32, u32)>) -> Raster {
    smoothed(scattered(src, destinations))
}

/// Sample `k` in column-major order is the one in column `x`, row `y`.
proof fn lemma_column_major(x: int, y: int, width: int, height: int)
    requires
        0 <= x < width,
        0 <= y < height,
    ensures
        0 <= x * height + y < width * height,
        (x * height + y) / height == x,
        (x * height + y) % height == y,
{
    lemma_fundamental_div_mod_converse(x * height + y, height, x, y);
    assert(x * height + height <= width * height) by (nonlinear_arith)
        requires
            0 <= x < width,
            0 < height,
    ;
}

/// Writing source sample `n` to its destination extends the scatter by one.
proof fn lemma_scatter_step(src: Raster, destinations: Seq<(u32, u32)>, n: nat)
    requires
        src.wf(),
        n < src.width * src.height,
        n < destinations.len(),
    ensures
        ({
            let to = clamped(destinations[n as int], src.width, src.height);
            let from = src.pixel(n as int / (src.height as int), n as int % (src.height as int));
            &&& src.contains(to.0, to.1)
            &&& scattered_first(src, destinations, n).put(to.0, to.1, from) == scattered_first(
                src,
                destinations,
                n + 1,
            )
        }),
{
    assert(src.width > 0 && src.height > 0) by (nonlinear_arith)
        requires
            n < src.width * src.height,
    ;
    let to = clamped(destinations[n as int], src.width, src.height);
    let from = src.pixel(n as int / (src.height as int), n as int % (src.height as int));
    let before = scattered_first(src, destinations, n);
    let after = scattered_first(src, destinations, n + 1);
    assert(before.put(to.0, to.1, from) =~~= after);
}

/// Every source sample is sent to its own place.
pub open spec fn stays_in_place(destinations: Seq<(u32, u32)>, width: nat, height: nat) -> bool {
    &&& destinations.len() == width * height
    &&& forall|k: int|
        0 <= k < width * height ==> #[trigger] destinations[k] == (
            (k / (height as int)) as u32,
            (k % (height as int)) as u32,
        )
}

/// Where every source sample is sent to its own place, the last writer of
/// a place among the first `n` samples is the place's own sample, once it
/// is among them.
proof fn lemma_in_place_writer(
    destinations: Seq<(u32, u32)>,
    width: nat,
    height: nat,
    x: int,
    y: int,
    n: nat,
)
    requires
        stays_in_place(destinations, width, height),
        width <= u32::MAX,
        height <= u32::MAX,
        0 <= x < width,
        0 <= y < height,
        n <= width * height,
    ensures
        last_writer(destinations, width, height, x, y, n) == if x * height + y < n {
            Some(x * height + y)
        } else {
            None
        },
    decreases n,
{
    if n > 0 {
        lemma_in_place_writer(destinations, width, height, x, y, (n - 1) as nat);
        let k: int = n - 1;
        let kx: int = k / (height as int);
        let ky: int = k % (height as int);
        vstd::arithmetic::div_mod::lemma_fundamental_div_mod(k, height as int);
        assert(kx < width) by (nonlinear_arith)
            requires
                k < width * height,
                k == height * kx + ky,
                0 <= ky,
                0 < height,
        ;
        assert(k == kx * height + ky) by (nonlinear_arith)
            requires
                k == height * kx + ky,
        ;
        lemma_column_major(x, y, width as int, height as int);
    }
}

/// Where every source sample is sent to its own place, as it is when the
/// raster is turned by no angle, the scatter gives the source back, and the
/// rotation is the averaging pass alone: each colour channel of each sample
/// is the sum over the three-by-three block around it in the source,
/// divided by nine and rounded down, and each sample is opaque.
pub proof fn lemma_rotation_in_place(src: Raster, destinations: Seq<(u32, u32)>)
    requires
        src.wf(),
        src.width <= u32::MAX,
        src.height <= u32::MAX,
        stays_in_place(destinations, src.width, src.height),
    ensures
        scattered(src, destinations) == src,
        rotated(src, destinations) == smoothed(src),
        rotated(src, destinations).width == src.width,
        rotated(src, destinations).height == src.height,
        forall|x: int, y: int|
            src.contains(x, y) ==> #[trigger] rotated(src, destinations).pixel(x, y) == averaged(
                src,
                x,
                y,
            ),
{
    let out = scattered(src, destinations);
    assert forall|x: int, y: int| src.contains(x, y) implies #[trigger] out.rows[y][x]
        == src.rows[y][x] by {
        lemma_in_place_writer(destinations, src.width, src.height, x, y, src.width * src.height);
        lemma_column_major(x, y, src.width as int, src.height as int);
    }
    assert(out =~~= src);
}

/// Rotation of a raster by a map of destinations.
pub trait CustomRotation: View<V = Raster> + Sized {
    /// Rotates by scattering: source sample `k`, counted column by column,
    /// is written to `destinations[k]`, pulled back inside the raster where
    /// it falls outside; later samples overwrite earlier ones and places
    /// that no sample reaches stay transparent. An averaging pass follows:
    /// every sample of the result is the average of the three-by-three
    /// block around its place in the scattered raster, which divides by
    /// nine whatever number of neighbours lay inside, rounds down, and
    /// makes the sample opaque. The result has the dimensions of the
    /// source.
    fn rotate(self, destinations: &Vec<(u32, u32)>) -> (out: RasterBuffer)
        requires
            destinations@.len() == self@.width * self@.height,
        ensures
            out@ == rotated(self@, destinations@),
            out@.width == self@.width,
            out@.height == self@.height,
    ;
}

/// The channel values that the place `(x, y)` adds to an average.
fn tap_at(r: &RasterBuffer, x: i64, y: i64) -> (sum: (u32, u32, u32))
    ensures
        sum.0 == tap(r@, x as int, y as int, Channel::Red),
        sum.1 == tap(r@, x as int, y as int, Channel::Green),
        sum.2 == tap(r@, x as int, y as int, Channel::Blue),
        sum.0 <= 255,
        sum.1 <= 255,
        sum.2 <= 255,
{
    if 0 <= x && x < r.width() as i64 && 0 <= y && y < r.height() as i64 {
        let p = r.get_pixel(x as u32, y as u32);
        (p.red as u32, p.green as u32, p.blue as u32)
    } else {
        (0, 0, 0)
    }
}

/// The channel sums over `(x, y)` and the places above and below it.
fn column_sum_at(r: &RasterBuffer, x: i64, y: i64) -> (sum: (u32, u32, u32))
    requires
        -1 <= x <= u32::MAX + 1,
        0 <= y <= u32::MAX,
    ensures
        sum.0 == column_sum(r@, x as int, y as int, Channel::Red),
        sum.1 == column_sum(r@, x as int, y as int, Channel::Green),
        sum.2 == column_sum(r@, x as int, y as int, Channel::Blue),
        sum.0 <= 765,
        sum.1 <= 765,
        sum.2 <= 765,
{
    let above = tap_at(r, x, y - 1);
    let here = tap_at(r, x, y);
    let below = tap_at(r, x, y + 1);
    (above.0 + here.0 + below.0, above.1 + here.1 + below.1, above.2 + here.2 + below.2)
}

/// The averaged sample for the place `(x, y)`.
fn averaged_at(r: &RasterBuffer, x: u32, y: u32) -> (p: Rgba)
    requires
        r@.contains(x as int, y as int),
    ensures
        p == averaged(r@, x as int, y as int),
{
    let left = column_sum_at(r, x as i64 - 1, y as i64);
    let mid = column_sum_at(r, x as i64, y as i64);
    let right = column_sum_at(r, x as i64 + 1, y as i64);
    Rgba {
        red: ((left.0 + mid.0 + right.0) / 9) as u8,
        green: ((left.1 + mid.1 + right.1) / 9) as u8,
        blue: ((left.2 + mid.2 + right.2) / 9) as u8,
        alpha: 255,
    }
}

/// The scatter: every source sample written to its destination, in order.
fn scatter(src: &RasterBuffer, destinations: &Vec<(u32, u32)>) -> (canvas: RasterBuffer)
    requires
        destinations@.len() == src@.width * src@.height,
    ensures
        canvas@ == scattered(src@, destinations@),
{
    let width = src.width();
    let height = src.height();
    let mut canvas = src.blank_like();
    proof {
        src.lemma_view();
        assert(destinations.len() == destinations@.len());
        assert(canvas@ =~~= scattered_first(src@, destinations@, 0));
    }
    let mut x: u32 = 0;
    while x < width
        invariant
            x <= width,
            width == src@.width,
            height == src@.height,
            src@.wf(),
            destinations@.len() == width * height,
            width * height <= usize::MAX,
            canvas@ == scattered_first(src@, destinations@, (x * height) as nat),
        decreases width - x,
    {
        let mut y: u32 = 0;
        while y < height
            invariant
                x < width,
                y <= height,
                width == src@.width,
                height == src@.height,
                src@.wf(),
                destinations@.len() == width * height,
                width * height <= usize::MAX,
                canvas@ == scattered_first(src@, destinations@, (x * height + y) as nat),
            decreases height - y,
        {
            proof {
                lemma_column_major(x as int, y as int, width as int, height as int);
                lemma_scatter_step(src@, destinations@, (x * height + y) as nat);
            }
            let k: usize = x as usize * height as usize + y as usize;
            let to = destinations[k];
            let to_x = if to.0 >= width {
                width - 1
            } else {
                to.0
            };
            let to_y = if to.1 >= height {
                height - 1
            } else {
                to.1
            };
            let p = src.get_pixel(x, y);
            canvas.put_pixel(to_x, to_y, p);
            y = y + 1;
        }
        proof {
            assert((x + 1) * height == x * height + height) by (nonlinear_arith);
        }
        x = x + 1;
    }
    canvas
}

/// The averaging pass: reads the canvas and writes the averages to a
/// buffer of its own.
fn smooth(canvas: &RasterBuffer) -> (out: RasterBuffer)
    ensures
        out@ == smoothed(canvas@),
{
    let width = canvas.width();
    let height = canvas.height();
    let mut out = canvas.blank_like();
    proof {
        assert(out@ =~~= smoothed_part(canvas@, 0, 0));
    }
    let mut x: u32 = 0;
    while x < width
        invariant
            x <= width,
            width == canvas@.width,
            height == canvas@.height,
            out@ == smoothed_part(canvas@, x as int, 0),
        decreases width - x,
    {
        let mut y: u32 = 0;
        while y < height
            invariant
                x < width,
                y <= height,
                width == canvas@.width,
                height == canvas@.height,
                out@ == smoothed_part(canvas@, x as int, y as int),
            decreases height - y,
        {
            let p = averaged_at(canvas, x, y);
            out.put_pixel(x, y, p);
            proof {
                assert(out@ =~~= smoothed_part(canvas@, x as int, y + 1));
            }
            y = y + 1;
        }
        proof {
            assert(smoothed_part(canvas@, x as int, height as int) =~~= smoothed_part(
                canvas@,
                x + 1,
                0,
            ));
        }
        x = x + 1;
    }
    proof {
        assert(smoothed_part(canvas@, width as int, 0) =~~= smoothed(canvas@));
    }
    out
}

impl CustomRotation for RasterBuffer {
    fn rotate(self, destinations: &Vec<(u32, u32)>) -> (out: RasterBuffer) {
        let canvas = scatter(&self, destinations);
        smooth(&canvas)
    }
}

} // verus!
