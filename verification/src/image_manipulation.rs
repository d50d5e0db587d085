//! The memes: an avatar, made round, stamped on a template.

use crate::compositor::{composed, AlphaImplementations, CompositeMode};
use crate::encoder::{is_encoder_report, png_encoding, PngAssistant, ProperResultConversion};
use crate::handler::{APIResponseError, MessageResponse};
use crate::masker::{round_image, rounded};
use crate::raster::{Raster, RasterBuffer, Rgba};
use vstd::prelude::*;

verus! {

/// What a request may ask for besides the avatar.
#[derive(Debug)]
pub struct ImageManipulationFunctionOptions {
    /// Whether the large template is used, not the small one.
    pub large: bool,
    /// Whether the avatar is mirrored before it is used.
    pub flip: bool,
}

/// A length on the large template, or the quarter of it, rounded down, that
/// stands for it on the small one.
pub fn smallify_large_number(num: u32, large: bool) -> (out: u32)
    ensures
        out == if large {
            num
        } else {
            num / 4
        },
{
    if large {
        num
    } else {
        num / 4
    }
}

/// The memes that can be made.
#[derive(Clone, Copy, Debug, PartialEq, Eq, Structural)]
pub enum MemeKind {
    Enter,
    Exit,
}

/// The alpha above which a sample of the avatar is stamped on the template.
pub const AVATAR_THRESHOLD: u8 = 128;

impl MemeKind {
    /// The meme that goes by the name `key`, if there is one: `enter` and
    /// `exit` are the names.
    pub fn from_key(key: &str) -> (kind: Option<MemeKind>)
        ensures
            key@ == "enter"@ ==> kind == Some(MemeKind::Enter),
            key@ == "exit"@ ==> kind == Some(MemeKind::Exit),
            key@ != "enter"@ && key@ != "exit"@ ==> kind is None,
    {
        proof {
            reveal_strlit("enter");
            reveal_strlit("exit");
            assert("enter"@.len() != "exit"@.len());
        }
        let name = key.to_owned();
        if name == "enter".to_owned() {
            Some(MemeKind::Enter)
        } else if name == "exit".to_owned() {
            Some(MemeKind::Exit)
        } else {
            None
        }
    }

    /// The file that holds the meme's template.
    pub fn template(self) -> (file: &'static str)
        ensures
            file@ == match self {
                MemeKind::Enter => "enter.png"@,
                MemeKind::Exit => "exit.png"@,
            },
    {
        match self {
            MemeKind::Enter => "enter.png",
            MemeKind::Exit => "exit.png",
        }
    }

    /// The column of the template at which the avatar starts.
    pub open spec fn spec_avatar_x(self, large: bool) -> u32 {
        if large {
            35
        } else {
            8
        }
    }

    /// The column of the template at which the avatar starts.
    #[verifier::when_used_as_spec(spec_avatar_x)]
    pub fn avatar_x(self, large: bool) -> (x: u32)
        ensures
            x == self.spec_avatar_x(large),
    {
        smallify_large_number(35, large)
    }

    /// The row of the template at which the avatar starts.
    pub open spec fn spec_avatar_y(self, large: bool) -> u32 {
        if large {
            397
        } else {
            99
        }
    }

    /// The row of the template at which the avatar starts.
    #[verifier::when_used_as_spec(spec_avatar_y)]
    pub fn avatar_y(self, large: bool) -> (y: u32)
        ensures
            y == self.spec_avatar_y(large),
    {
        smallify_large_number(397, large)
    }

    /// The length of each side of the avatar on the template.
    pub open spec fn spec_avatar_dimensions(self, large: bool) -> u32 {
        if large {
            603
        } else {
            150
        }
    }

    /// The length of each side of the avatar on the template.
    #[verifier::when_used_as_spec(spec_avatar_dimensions)]
    pub fn avatar_dimensions(self, large: bool) -> (side: u32)
        ensures
            side == self.spec_avatar_dimensions(large),
    {
        smallify_large_number(603, large)
    }
}

/// The message for a request that names no meme.
pub fn out_of_bounds_index() -> (response: MessageResponse)
    ensures
        response.message@ == "the provided image type does not exist"@,
{
    MessageResponse { message: "the provided image type does not exist".to_owned() }
}

/// The directory and file of a template, by its file name and size.
pub fn asset_path(image: &str, large: bool) -> (path: String)
    ensures
        path@ == (if large {
            "assets/images/1000/"@
        } else {
            "assets/images/250/"@
        }) + image@,
{
    if large {
        "assets/images/1000/".to_owned().concat(image)
    } else {
        "assets/images/250/".to_owned().concat(image)
    }
}

/// The raster mirrored left to right.
pub open spec fn flipped(src: Raster) -> Raster {
    Raster::build(src.width, src.height, |x: int, y: int| src.pixel(src.width - 1 - x, y))
}

/// The mirrored raster as far as it has been copied: the first `rows` rows
/// and the first `columns` places of the next one, on a transparent raster.
spec fn flipped_part(src: Raster, rows: int, columns: int) -> Raster {
    Raster::build(
        src.width,
        src.height,
        |x: int, y: int|
            if y < rows || (y == rows && x < columns) {
                src.pixel(src.width - 1 - x, y)
            } else {
                Rgba::clear()
            },
    )
}

/// Mirrors the raster left to right: every sample stands in its row as far
/// from the right edge as it stood from the left one.
pub fn flip_horizontal(img: &RasterBuffer) -> (out: RasterBuffer)
    ensures
        out@ == flipped(img@),
{
    let width = img.width();
    let height = img.height();
    let mut out = img.blank_like();
    proof {
        img.lemma_view();
        assert(out@ =~~= flipped_part(img@, 0, 0));
    }
    let mut y: u32 = 0;
    while y < height
        invariant
            y <= height,
            width == img@.width,
            height == img@.height,
            out@ == flipped_part(img@, y as int, 0),
        decreases height - y,
    {
        let mut x: u32 = 0;
        while x < width
            invariant
                y < height,
                x <= width,
                width == img@.width,
                height == img@.height,
                out@ == flipped_part(img@, y as int, x as int),
            decreases width - x,
        {
            let p = img.get_pixel(width - 1 - x, y);
            out.put_pixel(x, y, p);
            proof {
                assert(out@ =~~= flipped_part(img@, y as int, x + 1));
            }
            x = x + 1;
        }
        proof {
            assert(flipped_part(img@, y as int, width as int) =~~= flipped_part(img@, y + 1, 0));
        }
        y = y + 1;
    }
    proof {
        assert(flipped_part(img@, height as int, 0) =~~= flipped(img@));
    }
    out
}

/// The filters by which a raster can be resampled. Each is worked out in
/// steps of floating-point arithmetic that give the same samples on every
/// machine.
#[derive(Clone, Copy, Debug, PartialEq, Eq, Structural)]
pub enum SamplingFilter {
    /// Linear interpolation between neighbouring samples.
    Triangle,
}

/// The raster that `image` makes of `src` when it resamples it to the given
/// dimensions with the given filter.
pub uninterp spec fn resized(src: Raster, width: u32, height: u32, filter: SamplingFilter) -> Raster;

/// The longest side that is resampled. Up to this length the filter, which
/// works in single precision, places every sample exactly enough to find
/// the samples that it is made of.
pub const LONGEST_SIDE: u32 = 1_048_576;

/// Whether a raster can be resampled to the given dimensions: no side of
/// it or of the result is longer than [`LONGEST_SIDE`], and both the result
/// and the raster of the source's width and the result's height, which is
/// made on the way, can be addressed.
pub open spec fn resizable(src: Raster, width: u32, height: u32) -> bool {
    &&& src.width <= LONGEST_SIDE
    &&& src.height <= LONGEST_SIDE
    &&& width <= LONGEST_SIDE
    &&& height <= LONGEST_SIDE
    &&& src.width * height * 4 <= usize::MAX
    &&& width * height * 4 <= usize::MAX
}

/// Whether the raster can be resampled to the given dimensions.
pub fn can_resize(img: &RasterBuffer, width: u32, height: u32) -> (yes: bool)
    ensures
        yes == resizable(img@, width, height),
{
    let from: u128 = img.width() as u128;
    let across: u128 = width as u128;
    let down: u128 = height as u128;
    assert(from * down <= 0xffff_ffff * 0xffff_ffff && across * down <= 0xffff_ffff * 0xffff_ffff)
        by (nonlinear_arith)
        requires
            from <= 0xffff_ffff,
            across <= 0xffff_ffff,
            down <= 0xffff_ffff,
    ;
    img.width() <= LONGEST_SIDE && img.height() <= LONGEST_SIDE && width <= LONGEST_SIDE && height
        <= LONGEST_SIDE && from * down * 4 <= usize::MAX as u128 && across * down * 4
        <= usize::MAX as u128
}

/// `image::imageops::resize` on an RGBA image: a new image of exactly the
/// given dimensions, resampled with the filter first along the columns and
/// then along the rows, in floating point; an image that has the given
/// dimensions already is copied as it is.
#[verifier::external_body]
fn resize_exact(img: &RasterBuffer, width: u32, height: u32, filter: SamplingFilter) -> (out:
    RasterBuffer)
    requires
        resizable(img@, width, height),
    ensures
        out@ == resized(img@, width, height, filter),
        out@.width == width,
        out@.height == height,
        img@.width == width && img@.height == height ==> out@ == img@,
{
    let bytes = img.clone().into_raw();
    let src = image::RgbaImage::from_raw(img.width(), img.height(), bytes).unwrap();
    let with = match filter {
        SamplingFilter::Triangle => image::imageops::FilterType::Triangle,
    };
    let scaled = image::imageops::resize(&src, width, height, with);
    RasterBuffer::from_raw(scaled.width(), scaled.height(), scaled.into_raw()).unwrap()
}

/// The avatar as it is stamped on the template: mirrored if asked for,
/// resampled to a square of the given side, and made round.
pub open spec fn prepared(avatar: Raster, flip: bool, side: u32) -> Raster {
    rounded(
        resized(
            if flip {
                flipped(avatar)
            } else {
                avatar
            },
            side,
            side,
            SamplingFilter::Triangle,
        ),
    )
}

/// Mirrors the avatar if asked for, resamples it to a square of the given
/// side, and makes it round.
pub fn prepare_avatar(avatar: RasterBuffer, flip: bool, side: u32) -> (out: RasterBuffer)
    requires
        resizable(avatar@, side, side),
    ensures
        out@ == prepared(avatar@, flip, side),
        out@.width == side,
        out@.height == side,
{
    let turned = if flip {
        flip_horizontal(&avatar)
    } else {
        avatar
    };
    let mut scaled = resize_exact(&turned, side, side, SamplingFilter::Triangle);
    round_image(&mut scaled);
    scaled
}

impl MemeKind {
    /// The meme as a raster: the prepared avatar stamped on the template at
    /// the meme's place.
    pub open spec fn meme(
        self,
        avatar: Raster,
        meme_image: Raster,
        options: ImageManipulationFunctionOptions,
    ) -> Raster {
        composed(
            meme_image,
            prepared(avatar, options.flip, self.avatar_dimensions(options.large)),
            self.avatar_x(options.large) as int,
            self.avatar_y(options.large) as int,
            AVATAR_THRESHOLD,
            CompositeMode::Stamp,
        )
    }

    /// Whether the prepared avatar, at the meme's place, lies inside the
    /// template.
    pub open spec fn has_room(self, meme_image: Raster, large: bool) -> bool {
        &&& self.avatar_x(large) + self.avatar_dimensions(large) <= meme_image.width
        &&& self.avatar_y(large) + self.avatar_dimensions(large) <= meme_image.height
    }

    /// Makes the meme and encodes it as a PNG byte stream.
    ///
    /// Fails with the report of a dimension mismatch where the template has
    /// no room for the avatar at the meme's place, and, where the encoder
    /// refuses the meme, with the text of the encoder's failure.
    pub fn render(
        self,
        avatar: RasterBuffer,
        meme_image: RasterBuffer,
        options: ImageManipulationFunctionOptions,
    ) -> (res: Result<PngAssistant, APIResponseError>)
        requires
            resizable(
                avatar@,
                self.avatar_dimensions(options.large),
                self.avatar_dimensions(options.large),
            ),
        ensures
            res is Ok <==> self.has_room(meme_image@, options.large) && png_encoding(
                self.meme(avatar@, meme_image@, options),
            ) is Some,
            res matches Ok(png) ==> png_encoding(self.meme(avatar@, meme_image@, options)) == Some(
                png.encoding_bytes@,
            ),
            !self.has_room(meme_image@, options.large) ==> (res matches Err(error) && error@
                == "The Image's dimensions are either too small or too large"@),
            res matches Err(error) ==> (self.has_room(meme_image@, options.large)
                ==> is_encoder_report(error@)),
    {
        let x = self.avatar_x(options.large);
        let y = self.avatar_y(options.large);
        let side = self.avatar_dimensions(options.large);
        let avatar = prepare_avatar(avatar, options.flip, side);
        let mut meme_image = meme_image;
        let stamped = meme_image.copy_within_alpha_threshold(&avatar, x, y, AVATAR_THRESHOLD);
        match stamped.proper_result() {
            Ok(()) => PngAssistant::create_png(meme_image),
            Err(error) => Err(error),
        }
    }
}

} // verus!
