//! Turning finished rasters into PNG and GIF byte streams.

use crate::compositor::DimensionError;
use crate::handler::APIResponseError;
use crate::raster::{Raster, RasterBuffer};
use image::codecs::gif::{GifEncoder, Repeat};
use image::codecs::png::PngEncoder;
use image::{ImageEncoder, RgbaImage};
use vstd::prelude::*;

verus! {

/// `image::ImageError`, the failure of an encoder: carried through as it
/// is, and read only for its text.
#[verifier::external_type_specification]
#[verifier::external_body]
pub struct ExImageError(image::ImageError);

/// Whether `text` is what the failure says of itself: the text that its
/// `to_string` gives.
pub open spec fn is_report_of(error: image::ImageError, text: Seq<char>) -> bool {
    exists|written: String| #[trigger]
        vstd::string::to_string_from_display_ensures::<image::ImageError>(&error, written)
            && written@ == text
}

/// Whether `text` is what some failure of an encoder says of itself.
pub open spec fn is_encoder_report(text: Seq<char>) -> bool {
    exists|error: image::ImageError| #[trigger] is_report_of(error, text)
}

/// Results whose failure can be reported to the caller by its text.
pub trait ProperResultConversion<T> {
    /// What the result holds on success.
    spec fn success(&self) -> Option<T>;

    /// Keeps a success as it is and turns a failure into its report.
    fn proper_result(self) -> (res: Result<T, APIResponseError>) where Self: Sized
        ensures
            res is Ok <==> self.success() is Some,
            res matches Ok(value) ==> self.success() == Some(value),
    ;
}

impl<T> ProperResultConversion<T> for Result<T, image::ImageError> {
    open spec fn success(&self) -> Option<T> {
        match *self {
            Ok(value) => Some(value),
            Err(_) => None,
        }
    }

    /// Keeps a success as it is and reports a failure by the text that the
    /// failure says of itself.
    fn proper_result(self) -> (res: Result<T, APIResponseError>)
        ensures
            self matches Err(error) ==> (res matches Err(report) && is_report_of(error, report@)),
    {
        match self {
            Ok(value) => Ok(value),
            Err(error) => Err(APIResponseError::new(error.to_string())),
        }
    }
}

impl<T> ProperResultConversion<T> for Result<T, DimensionError> {
    open spec fn success(&self) -> Option<T> {
        match *self {
            Ok(value) => Some(value),
            Err(_) => None,
        }
    }

    fn proper_result(self) -> (res: Result<T, APIResponseError>)
        ensures
            res matches Err(error) ==> error@
                == "The Image's dimensions are either too small or too large"@,
    {
        match self {
            Ok(value) => Ok(value),
            Err(error) => Err(APIResponseError::new(error.to_string())),
        }
    }
}

/// The PNG byte stream that the `image` crate writes for an RGBA raster, or
/// `None` where it refuses the raster.
pub uninterp spec fn png_encoding(raster: Raster) -> Option<Seq<u8>>;

/// `image::codecs::png::PngEncoder::write_image` into an empty byte vector,
/// for eight-bit RGBA samples: the crate's PNG stream for the raster, or its
/// error. The underlying `png` encoder refuses a raster without columns or
/// without rows.
#[verifier::external_body]
fn encode_png(img: &RasterBuffer) -> (res: Result<Vec<u8>, image::ImageError>)
    ensures
        res is Ok <==> png_encoding(img@) is Some,
        res matches Ok(bytes) ==> png_encoding(img@) == Some(bytes@),
        img@.width == 0 || img@.height == 0 ==> res is Err,
{
    let samples = img.clone().into_raw();
    let mut bytes = Vec::new();
    let encoder = PngEncoder::new(&mut bytes);
    encoder.write_image(&samples, img.width(), img.height(), image::ColorType::Rgba8)?;
    Ok(bytes)
}

/// A PNG byte stream, ready to be sent.
#[derive(Debug)]
pub struct PngAssistant {
    pub encoding_bytes: Vec<u8>,
}

impl PngAssistant {
    /// Encodes `image` as a PNG byte stream. Fails where the encoder
    /// refuses the raster, as it does for one without columns or rows, and
    /// reports that by the text of the encoder's failure; no part of a
    /// stream is returned then.
    pub fn create_png(image: RasterBuffer) -> (res: Result<PngAssistant, APIResponseError>)
        ensures
            res is Ok <==> png_encoding(image@) is Some,
            res matches Ok(png) ==> png_encoding(image@) == Some(png.encoding_bytes@),
            res matches Err(report) ==> is_encoder_report(report@),
            image@.width == 0 || image@.height == 0 ==> res is Err,
    {
        match encode_png(&image).proper_result() {
            Ok(bytes) => Ok(PngAssistant { encoding_bytes: bytes }),
            Err(error) => Err(error),
        }
    }
}

/// How often an animation plays.
#[derive(Clone, Copy, Debug, PartialEq, Eq, Structural)]
pub enum LoopCount {
    /// It plays again this many times.
    Finite(u16),
    /// It plays without end.
    Infinite,
}

/// The rasters that a sequence of buffers holds.
pub open spec fn rasters(frames: Seq<RasterBuffer>) -> Seq<Raster> {
    frames.map_values(|frame: RasterBuffer| frame@)
}

/// The animated GIF byte stream that the `image` crate writes for the
/// frames, each shown for `delay_ms` milliseconds, or `None` where it
/// refuses a frame.
pub uninterp spec fn gif_encoding(frames: Seq<Raster>, delay_ms: u32, repeat: LoopCount) -> Option<
    Seq<u8>,
>;

/// Whether one of the frames has a side that a GIF cannot hold: one longer
/// than 65535 samples.
pub open spec fn oversized(frames: Seq<Raster>) -> bool {
    exists|i: int|
        0 <= i < frames.len() && ((#[trigger] frames[i]).width > 0xffff || frames[i].height
            > 0xffff)
}

/// `image::codecs::gif::GifEncoder::encode_frames` into an empty byte
/// vector, after `set_repeat`, with every raster as an `image::Frame` at the
/// canvas's origin and with a delay of `delay_ms` milliseconds: the crate's
/// GIF stream for the frames, in their order, or its error. The crate
/// writes nothing before the first frame, so no frames give an empty
/// stream, and it refuses a frame with a side longer than 65535 samples.
#[verifier::external_body]
fn encode_gif(frames: Vec<RasterBuffer>, delay_ms: u32, repeat: LoopCount) -> (res: Result<
    Vec<u8>,
    image::ImageError,
>)
    ensures
        res is Ok <==> gif_encoding(rasters(frames@), delay_ms, repeat) is Some,
        res matches Ok(bytes) ==> gif_encoding(rasters(frames@), delay_ms, repeat) == Some(bytes@),
        frames@.len() == 0 ==> res is Ok,
        res matches Ok(bytes) ==> (frames@.len() == 0 ==> bytes@.len() == 0),
        oversized(rasters(frames@)) ==> res is Err,
{
    let mut bytes = Vec::new();
    let mut encoder = GifEncoder::new(&mut bytes);
    encoder.set_repeat(match repeat {
        LoopCount::Finite(times) => Repeat::Finite(times),
        LoopCount::Infinite => Repeat::Infinite,
    })?;
    let delay = image::Delay::from_numer_denom_ms(delay_ms, 1);
    let buffers = frames.into_iter().map(
        |f| RgbaImage::from_raw(f.width(), f.height(), f.into_raw()).unwrap(),
    );
    encoder.encode_frames(buffers.map(|buffer| image::Frame::from_parts(buffer, 0, 0, delay)))?;
    drop(encoder);
    Ok(bytes)
}

/// An animated GIF byte stream, ready to be sent.
#[derive(Debug)]
pub struct GifAssistant {
    pub encoding_bytes: Vec<u8>,
}

/// Whether `out` is what the generator may return for frame `index`, called
/// with clones of the two ingredients.
pub open spec fn generated<Overlayed: Clone, Overlaying: Clone, F: Fn(
    u32,
    Overlayed,
    Overlaying,
) -> Result<RasterBuffer, APIResponseError>>(
    encoding_function: F,
    overlayed_image: Overlayed,
    overlaying_image: Overlaying,
    index: u32,
    out: Result<RasterBuffer, APIResponseError>,
) -> bool {
    exists|under: Overlayed, over: Overlaying|
        cloned(overlayed_image, under) && cloned(overlaying_image, over) && call_ensures(
            encoding_function,
            (index, under, over),
            out,
        )
}

/// Whether the generator may accept every one of the first `iterations`
/// frame numbers, with any clones of the two ingredients.
pub open spec fn generator_accepts<Overlayed: Clone, Overlaying: Clone, F: Fn(
    u32,
    Overlayed,
    Overlaying,
) -> Result<RasterBuffer, APIResponseError>>(
    encoding_function: F,
    overlayed_image: Overlayed,
    overlaying_image: Overlaying,
    iterations: u32,
) -> bool {
    forall|index: u32, under: Overlayed, over: Overlaying|
        index < iterations && cloned(overlayed_image, under) && cloned(overlaying_image, over)
            ==> call_requires(encoding_function, (index, under, over))
}

/// Whether `frames` are what the generator may return for the frame numbers
/// from 0 on, one after the other.
pub open spec fn all_generated<Overlayed: Clone, Overlaying: Clone, F: Fn(
    u32,
    Overlayed,
    Overlaying,
) -> Result<RasterBuffer, APIResponseError>>(
    encoding_function: F,
    overlayed_image: Overlayed,
    overlaying_image: Overlaying,
    frames: Seq<RasterBuffer>,
) -> bool {
    forall|index: int|
        0 <= index < frames.len() ==> generated(
            encoding_function,
            overlayed_image,
            overlaying_image,
            index as u32,
            Ok(#[trigger] frames[index]),
        )
}

/// Whether `error` is what the generator may return for one of the first
/// `iterations` frame numbers, after it returned a frame for each number
/// before that one.
pub open spec fn generation_fails<Overlayed: Clone, Overlaying: Clone, F: Fn(
    u32,
    Overlayed,
    Overlaying,
) -> Result<RasterBuffer, APIResponseError>>(
    encoding_function: F,
    overlayed_image: Overlayed,
    overlaying_image: Overlaying,
    iterations: u32,
    error: APIResponseError,
) -> bool {
    exists|frames: Seq<RasterBuffer>|
        frames.len() < iterations && #[trigger] all_generated(
            encoding_function,
            overlayed_image,
            overlaying_image,
            frames,
        ) && generated(
            encoding_function,
            overlayed_image,
            overlaying_image,
            frames.len() as u32,
            Err(error),
        )
}

/// Whether `stream` is what the encoder makes of `iterations` frames that
/// the generator may return, played without end.
pub open spec fn animation_of<Overlayed: Clone, Overlaying: Clone, F: Fn(
    u32,
    Overlayed,
    Overlaying,
) -> Result<RasterBuffer, APIResponseError>>(
    encoding_function: F,
    overlayed_image: Overlayed,
    overlaying_image: Overlaying,
    ms: u32,
    iterations: u32,
    stream: Option<Seq<u8>>,
) -> bool {
    exists|frames: Seq<RasterBuffer>|
        frames.len() == iterations && #[trigger] all_generated(
            encoding_function,
            overlayed_image,
            overlaying_image,
            frames,
        ) && gif_encoding(rasters(frames), ms, LoopCount::Infinite) == stream
}

impl GifAssistant {
    /// Encodes the frames, in their order, as an animated GIF in which each
    /// frame is shown for `ms` milliseconds. Fails where the encoder
    /// refuses a frame, as it does for one with a side longer than 65535
    /// samples, and reports that by the text of the encoder's failure; no
    /// part of a stream is returned then. Without frames the stream is
    /// empty.
    pub fn encode_frames(frames: Vec<RasterBuffer>, ms: u32, repeat: LoopCount) -> (res: Result<
        GifAssistant,
        APIResponseError,
    >)
        ensures
            res is Ok <==> gif_encoding(rasters(frames@), ms, repeat) is Some,
            res matches Ok(gif) ==> gif_encoding(rasters(frames@), ms, repeat) == Some(
                gif.encoding_bytes@,
            ),
            res matches Err(report) ==> is_encoder_report(report@),
            frames@.len() == 0 ==> res is Ok,
            res matches Ok(gif) ==> (frames@.len() == 0 ==> gif.encoding_bytes@.len() == 0),
            oversized(rasters(frames@)) ==> res is Err,
    {
        match encode_gif(frames, ms, repeat).proper_result() {
            Ok(bytes) => Ok(GifAssistant { encoding_bytes: bytes }),
            Err(error) => Err(error),
        }
    }

    /// Calls the generator once for each frame number below `iterations`,
    /// in order, each time with clones of the two ingredients, and gives the
    /// frames that it returned. Stops at the first failure and returns it.
    pub fn generate_frames<Overlayed: Clone, Overlaying: Clone, F: Fn(
        u32,
        Overlayed,
        Overlaying,
    ) -> Result<RasterBuffer, APIResponseError>>(
        overlayed_image: Overlayed,
        overlaying_image: Overlaying,
        iterations: u32,
        encoding_function: F,
    ) -> (res: Result<Vec<RasterBuffer>, APIResponseError>)
        requires
            generator_accepts(encoding_function, overlayed_image, overlaying_image, iterations),
        ensures
            res matches Ok(frames) ==> frames@.len() == iterations && all_generated(
                encoding_function,
                overlayed_image,
                overlaying_image,
                frames@,
            ),
            res matches Err(error) ==> generation_fails(
                encoding_function,
                overlayed_image,
                overlaying_image,
                iterations,
                error,
            ),
    {
        let mut frames: Vec<RasterBuffer> = Vec::new();
        let mut i: u32 = 0;
        while i < iterations
            invariant
                i <= iterations,
                frames@.len() == i,
                generator_accepts(encoding_function, overlayed_image, overlaying_image, iterations),
                all_generated(encoding_function, overlayed_image, overlaying_image, frames@),
            decreases iterations - i,
        {
            let under = overlayed_image.clone();
            let over = overlaying_image.clone();
            let output = encoding_function(i, under, over);
            match output {
                Ok(frame) => {
                    frames.push(frame);
                },
                Err(error) => {
                    return Err(error);
                },
            }
            i = i + 1;
        }
        Ok(frames)
    }

    /// Builds an animated GIF that plays without end: one frame from the
    /// generator for each frame number below `iterations`, each shown for
    /// `ms` milliseconds. Fails with the generator's report at its first
    /// failure, and, where the encoder refuses a frame, with the text of
    /// the encoder's failure.
    pub fn create_gif<Overlayed: Clone, Overlaying: Clone, F: Fn(
        u32,
        Overlayed,
        Overlaying,
    ) -> Result<RasterBuffer, APIResponseError>>(
        overlayed_image: Overlayed,
        overlaying_image: Overlaying,
        ms: u32,
        iterations: u32,
        encoding_function: F,
    ) -> (res: Result<GifAssistant, APIResponseError>)
        requires
            generator_accepts(encoding_function, overlayed_image, overlaying_image, iterations),
        ensures
            res matches Ok(gif) ==> animation_of(
                encoding_function,
                overlayed_image,
                overlaying_image,
                ms,
                iterations,
                Some(gif.encoding_bytes@),
            ),
            res matches Err(error) ==> generation_fails(
                encoding_function,
                overlayed_image,
                overlaying_image,
                iterations,
                error,
            ) || (animation_of(
                encoding_function,
                overlayed_image,
                overlaying_image,
                ms,
                iterations,
                None,
            ) && is_encoder_report(error@)),
            iterations == 0 ==> res is Ok,
            res matches Ok(gif) ==> (iterations == 0 ==> gif.encoding_bytes@.len() == 0),
    {
        match GifAssistant::generate_frames(
            overlayed_image,
            overlaying_image,
            iterations,
            encoding_function,
        ) {
            Ok(frames) => GifAssistant::encode_frames(frames, ms, LoopCount::Infinite),
            Err(error) => Err(error),
        }
    }
}

} // verus!
