//! An image-compositing toolkit: one raster is laid on another and the
//! result is written out as a PNG or as an animated GIF.
//!
//! [`raster`] holds the buffer that every operation works on, together with
//! the grid of samples that the contracts speak of. [`compositor`] lays an
//! overlay on a destination by an alpha threshold, [`masker`] clears what
//! lies outside a circle or below an alpha, [`cropper`] fits an image to a
//! canvas that it overhangs, [`rotator`] scatters the samples to new places
//! and smooths the result, and [`encoder`] writes byte streams.
//! [`image_manipulation`] puts these together into the memes that a request
//! can ask for; [`handler`] and [`config`] hold what a request and the
//! environment say.

pub mod compositor;
pub mod config;
pub mod cropper;
pub mod encoder;
pub mod handler;
pub mod image_manipulation;
pub mod masker;
pub mod raster;
pub mod rotator;
