//! The decoded frame: an 8-bit grayscale raster.

use vstd::prelude::*;

verus! {

/// An 8-bit grayscale raster, row-major, with exactly `width * height`
/// pixel bytes.
#[derive(Clone, Debug)]
pub struct Raster {
    /// The width of the image in pixels.
    pub width: u32,
    /// The height of the image in pixels.
    pub height: u32,
    /// Row-major pixel bytes, one per pixel.
    pub pixels: Vec<u8>,
}

/// The mathematical model of a [`Raster`].
#[verifier::ext_equal]
pub struct RasterModel {
    pub width: u32,
    pub height: u32,
    pub pixels: Seq<u8>,
}

impl View for Raster {
    type V = RasterModel;

    open spec fn view(&self) -> RasterModel {
        RasterModel { width: self.width, height: self.height, pixels: self.pixels@ }
    }
}

} // verus!
