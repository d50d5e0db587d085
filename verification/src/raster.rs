//! The raster buffer shared by every operation, and its mathematical model.

use vstd::prelude::*;

verus! {

/// One sample of a raster: red, green, blue and alpha, eight bits each.
#[derive(Clone, Copy, Debug, PartialEq, Eq, Structural)]
pub struct Rgba {
    pub red: u8,
    pub green: u8,
    pub blue: u8,
    pub alpha: u8,
}

impl Rgba {
    /// The fully transparent sample: every channel zero.
    pub open spec fn spec_clear() -> Rgba {
        Rgba { red: 0, green: 0, blue: 0, alpha: 0 }
    }

    /// The fully transparent sample: every channel zero.
    #[verifier::when_used_as_spec(spec_clear)]
    pub fn clear() -> (p: Rgba)
        ensures
            p == Rgba::spec_clear(),
    {
        Rgba { red: 0, green: 0, blue: 0, alpha: 0 }
    }
}

/// A raster as a grid: `rows[y][x]` is the sample in column `x` of row `y`.
#[verifier::ext_equal]
pub struct Raster {
    pub width: nat,
    pub height: nat,
    pub rows: Seq<Seq<Rgba>>,
}

impl Raster {
    /// There are `height` rows of `width` samples each.
    pub open spec fn wf(self) -> bool {
        &&& self.rows.len() == self.height
        &&& forall|y: int| 0 <= y < self.height ==> (#[trigger] self.rows[y]).len() == self.width
    }

    /// Whether column `x`, row `y` lies inside the raster.
    pub open spec fn contains(self, x: int, y: int) -> bool {
        0 <= x < self.width && 0 <= y < self.height
    }

    /// The sample in column `x` of row `y`.
    pub open spec fn pixel(self, x: int, y: int) -> Rgba
        recommends
            self.contains(x, y),
    {
        self.rows[y][x]
    }

    /// The raster with the sample in column `x` of row `y` replaced by `p`.
    pub open spec fn put(self, x: int, y: int, p: Rgba) -> Raster
        recommends
            self.contains(x, y),
    {
        Raster { rows: self.rows.update(y, self.rows[y].update(x, p)), ..self }
    }

    /// The raster of the given size whose sample at `(x, y)` is `f(x, y)`.
    pub open spec fn build(width: nat, height: nat, f: spec_fn(int, int) -> Rgba) -> Raster {
        Raster {
            width,
            height,
            rows: Seq::new(height, |y: int| Seq::new(width, |x: int| f(x, y))),
        }
    }
}

/// Where the sample of column `x`, row `y` starts in a row-major RGBA byte array.
pub open spec fn sample_offset(width: int, x: int, y: int) -> int {
    (y * width + x) * 4
}

/// The sample that starts at byte `at` of `bytes`.
pub open spec fn sample_at(bytes: Seq<u8>, at: int) -> Rgba {
    Rgba { red: bytes[at], green: bytes[at + 1], blue: bytes[at + 2], alpha: bytes[at + 3] }
}

/// The grid that a row-major RGBA byte array of the given dimensions holds.
pub open spec fn raster_of(width: nat, height: nat, bytes: Seq<u8>) -> Raster {
    Raster::build(
        width,
        height,
        |x: int, y: int| sample_at(bytes, sample_offset(width as int, x, y)),
    )
}

/// Every sample inside a `width` by `height` raster lies inside its byte array.
pub proof fn lemma_sample_in_bounds(width: int, height: int, x: int, y: int)
    requires
        0 <= x < width,
        0 <= y < height,
    ensures
        0 <= sample_offset(width, x, y),
        sample_offset(width, x, y) + 4 <= width * height * 4,
        0 <= y * width,
        y * width + x < width * height,
{
    assert(0 <= y * width && y * width + width <= height * width) by (nonlinear_arith)
        requires
            0 <= y < height,
            0 < width,
    ;
    assert(height * width == width * height) by (nonlinear_arith);
}

/// Two samples inside a raster share their bytes only if they are the same sample.
pub proof fn lemma_sample_offsets_differ(width: int, x1: int, y1: int, x2: int, y2: int)
    requires
        0 <= x1 < width,
        0 <= x2 < width,
        0 <= y1,
        0 <= y2,
        x1 != x2 || y1 != y2,
    ensures
        sample_offset(width, x1, y1) + 4 <= sample_offset(width, x2, y2) || sample_offset(
            width,
            x2,
            y2,
        ) + 4 <= sample_offset(width, x1, y1),
{
    if y1 < y2 {
        assert(y1 * width + width <= y2 * width) by (nonlinear_arith)
            requires
                y1 < y2,
                0 < width,
        ;
    } else if y2 < y1 {
        assert(y2 * width + width <= y1 * width) by (nonlinear_arith)
            requires
                y2 < y1,
                0 < width,
        ;
    }
}

/// A width by height grid of RGBA samples, stored row by row, four bytes a sample.
#[derive(Debug)]
pub struct RasterBuffer {
    width: u32,
    height: u32,
    data: Vec<u8>,
}

impl View for RasterBuffer {
    type V = Raster;

    /// The grid of samples that the buffer holds.
    closed spec fn view(&self) -> Raster {
        raster_of(self.width as nat, self.height as nat, self.data@)
    }
}

impl RasterBuffer {
    /// The byte array holds four bytes for each sample, and no more.
    #[verifier::type_invariant]
    spec fn sized(self) -> bool {
        self.data@.len() == self.width * self.height * 4
    }

    /// The byte array behind the buffer, row by row.
    pub closed spec fn samples(self) -> Seq<u8> {
        self.data@
    }

    /// The view of a buffer is a well-formed grid of the buffer's bytes.
    pub proof fn lemma_view(self)
        ensures
            self@.wf(),
            self@ == raster_of(self@.width, self@.height, self.samples()),
    {
    }

    /// A buffer of the given dimensions with every sample equal to `p`.
    fn filled(width: u32, height: u32, p: Rgba) -> (out: RasterBuffer)
        requires
            width * height * 4 <= usize::MAX,
        ensures
            out@ == Raster::build(width as nat, height as nat, |x: int, y: int| p),
    {
        let count: usize = width as usize * height as usize;
        let mut data: Vec<u8> = Vec::new();
        let mut k: usize = 0;
        while k < count
            invariant
                k <= count,
                data@.len() == k * 4,
                forall|i: int| 0 <= i < k ==> sample_at(data@, #[trigger] (i * 4)) == p,
            decreases count - k,
        {
            data.push(p.red);
            data.push(p.green);
            data.push(p.blue);
            data.push(p.alpha);
            k = k + 1;
        }
        let out = RasterBuffer { width, height, data };
        proof {
            let model = Raster::build(width as nat, height as nat, |x: int, y: int| p);
            assert forall|x: int, y: int| model.contains(x, y) implies #[trigger] out@.rows[y][x]
                == p by {
                lemma_sample_in_bounds(width as int, height as int, x, y);
            }
            assert(out@ =~~= model);
        }
        out
    }

    /// A buffer of the given dimensions with every sample equal to `p`, or
    /// `None` when that many bytes cannot be addressed.
    pub fn from_pixel(width: u32, height: u32, p: Rgba) -> (out: Option<RasterBuffer>)
        ensures
            out is Some <==> width * height * 4 <= usize::MAX,
            out matches Some(b) ==> b@ == Raster::build(
                width as nat,
                height as nat,
                |x: int, y: int| p,
            ),
    {
        assert(width * height <= 0xffff_ffff * 0xffff_ffff) by (nonlinear_arith)
            requires
                width <= 0xffff_ffff,
                height <= 0xffff_ffff,
        ;
        if width as u128 * height as u128 * 4 > usize::MAX as u128 {
            None
        } else {
            Some(RasterBuffer::filled(width, height, p))
        }
    }

    /// A fully transparent buffer with the dimensions of this one.
    pub fn blank_like(&self) -> (out: RasterBuffer)
        ensures
            out@ == Raster::build(self@.width, self@.height, |x: int, y: int| Rgba::clear()),
    {
        self.blank_within(self.width, self.height)
    }

    /// A fully transparent buffer of the given dimensions, neither of which
    /// is larger than this buffer's.
    pub fn blank_within(&self, width: u32, height: u32) -> (out: RasterBuffer)
        requires
            width <= self@.width,
            height <= self@.height,
        ensures
            out@ == Raster::build(width as nat, height as nat, |x: int, y: int| Rgba::clear()),
    {
        proof {
            use_type_invariant(self);
            assert(self.data.len() == self.data@.len());
            assert(width * height <= self.width * self.height) by (nonlinear_arith)
                requires
                    0 <= width <= self.width,
                    0 <= height <= self.height,
            ;
        }
        RasterBuffer::filled(width, height, Rgba::clear())
    }

    /// A fully transparent buffer of the given dimensions, or `None` when that
    /// many bytes cannot be addressed.
    pub fn new(width: u32, height: u32) -> (out: Option<RasterBuffer>)
        ensures
            out is Some <==> width * height * 4 <= usize::MAX,
            out matches Some(b) ==> b@ == Raster::build(
                width as nat,
                height as nat,
                |x: int, y: int| Rgba::clear(),
            ),
    {
        RasterBuffer::from_pixel(width, height, Rgba::clear())
    }

    /// Takes a row-major RGBA byte array as a buffer of the given dimensions,
    /// or returns `None` unless it holds exactly four bytes for each sample.
    pub fn from_raw(width: u32, height: u32, data: Vec<u8>) -> (out: Option<RasterBuffer>)
        ensures
            out is Some <==> data@.len() == width * height * 4,
            out matches Some(b) ==> b@ == raster_of(width as nat, height as nat, data@)
                && b.samples() == data@,
    {
        assert(width * height <= 0xffff_ffff * 0xffff_ffff) by (nonlinear_arith)
            requires
                width <= 0xffff_ffff,
                height <= 0xffff_ffff,
        ;
        let expected: u128 = width as u128 * height as u128 * 4;
        if data.len() as u128 == expected {
            Some(RasterBuffer { width, height, data })
        } else {
            None
        }
    }

    /// The bytes of the buffer, row by row.
    pub fn as_raw(&self) -> (bytes: &Vec<u8>)
        ensures
            bytes@ == self.samples(),
            bytes@.len() == self@.width * self@.height * 4,
    {
        proof {
            use_type_invariant(self);
        }
        &self.data
    }

    /// Gives up the buffer for its bytes, row by row.
    pub fn into_raw(self) -> (bytes: Vec<u8>)
        ensures
            bytes@ == self.samples(),
            bytes@.len() == self@.width * self@.height * 4,
    {
        proof {
            use_type_invariant(&self);
        }
        self.data
    }

    /// The number of columns.
    pub fn width(&self) -> (w: u32)
        ensures
            w == self@.width,
    {
        self.width
    }

    /// The number of rows.
    pub fn height(&self) -> (h: u32)
        ensures
            h == self@.height,
    {
        self.height
    }

    /// The sample in column `x` of row `y`.
    pub fn get_pixel(&self, x: u32, y: u32) -> (p: Rgba)
        requires
            self@.contains(x as int, y as int),
        ensures
            p == self@.pixel(x as int, y as int),
    {
        proof {
            use_type_invariant(self);
            lemma_sample_in_bounds(self.width as int, self.height as int, x as int, y as int);
            assert(self.data.len() == self.data@.len());
        }
        let at: usize = (y as usize * self.width as usize + x as usize) * 4;
        Rgba {
            red: self.data[at],
            green: self.data[at + 1],
            blue: self.data[at + 2],
            alpha: self.data[at + 3],
        }
    }

    /// Replaces the sample in column `x` of row `y` by `p`.
    pub fn put_pixel(&mut self, x: u32, y: u32, p: Rgba)
        requires
            old(self)@.contains(x as int, y as int),
        ensures
            final(self)@ == old(self)@.put(x as int, y as int, p),
    {
        proof {
            use_type_invariant(&*self);
            lemma_sample_in_bounds(self.width as int, self.height as int, x as int, y as int);
            assert(self.data.len() == self.data@.len());
        }
        let at: usize = (y as usize * self.width as usize + x as usize) * 4;
        self.data[at] = p.red;
        self.data[at + 1] = p.green;
        self.data[at + 2] = p.blue;
        self.data[at + 3] = p.alpha;
        proof {
            let after = old(self)@.put(x as int, y as int, p);
            assert forall|xx: int, yy: int| after.contains(xx, yy) implies #[trigger] self@.rows[yy][xx]
                == after.rows[yy][xx] by {
                if xx != x || yy != y {
                    lemma_sample_offsets_differ(self.width as int, xx, yy, x as int, y as int);
                    lemma_sample_in_bounds(self.width as int, self.height as int, xx, yy);
                }
            }
            assert(self@ =~~= after);
        }
    }
}

impl Clone for RasterBuffer {
    fn clone(&self) -> (out: RasterBuffer)
        ensures
            out@ == self@,
            out.samples() == self.samples(),
    {
        proof {
            use_type_invariant(self);
        }
        let data = self.data.clone();
        RasterBuffer { width: self.width, height: self.height, data }
    }
}

} // verus!
