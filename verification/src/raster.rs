//! Bitmaps: the picture that a decoder hands out, and the raster asset that
//! the transformer makes of it.

use vstd::prelude::*;
use crate::formats::{CompressedFormat, CompressedImageFormats};
use crate::scale::buffer_bytes;
use crate::settings::{ImageSampler, RenderAssetUsages};

verus! {

/// A picture as a decoder hands it out.
#[derive(Debug, PartialEq, Eq)]
pub struct DecodedImage {
    /// The pixels, row by row, four bytes each: red, green, blue, alpha.
    pub pixels: Vec<u8>,
    pub width: u32,
    pub height: u32,
}

impl View for DecodedImage {
    type V = (Seq<u8>, u32, u32);

    /// The pixels, the width and the height.
    open spec fn view(&self) -> (Seq<u8>, u32, u32) {
        (self.pixels@, self.width, self.height)
    }
}

/// A bitmap of a fixed size, with what a program needs to know to use it.
#[derive(Debug, PartialEq, Eq)]
pub struct RasterAsset {
    /// The pixels, row by row, four bytes each: red, green, blue, alpha.
    pub pixels: Vec<u8>,
    pub width: u32,
    pub height: u32,
    /// Whether the colours are in the sRGB colour space.
    pub is_srgb: bool,
    pub sampler: ImageSampler,
    pub asset_usage: RenderAssetUsages,
    /// The compressed formats that the bitmap may later be turned into. They
    /// say nothing of the pixels here, which are never compressed.
    pub compressed_formats: CompressedImageFormats,
}

/// A raster asset with its pixels as a sequence and its compressed formats as
/// a set.
pub struct RasterAssetView {
    pub pixels: Seq<u8>,
    pub width: u32,
    pub height: u32,
    pub is_srgb: bool,
    pub sampler: ImageSampler,
    pub asset_usage: RenderAssetUsages,
    pub compressed_formats: Set<CompressedFormat>,
}

impl View for RasterAsset {
    type V = RasterAssetView;

    open spec fn view(&self) -> RasterAssetView {
        RasterAssetView {
            pixels: self.pixels@,
            width: self.width,
            height: self.height,
            is_srgb: self.is_srgb,
            sampler: self.sampler,
            asset_usage: self.asset_usage,
            compressed_formats: self.compressed_formats@,
        }
    }
}

impl RasterAssetView {
    /// There are four bytes for each pixel, and no others.
    pub open spec fn well_formed(self) -> bool {
        self.pixels.len() == buffer_bytes(self.width, self.height)
    }
}

impl RasterAsset {
    /// There are four bytes for each pixel, and no others.
    pub open spec fn well_formed(&self) -> bool {
        self@.well_formed()
    }

    /// Tells whether there are four bytes for each pixel, and no others.
    pub fn is_well_formed(&self) -> (b: bool)
        ensures
            b == self.well_formed(),
    {
        assert(0 <= self.width * self.height <= 0xFFFF_FFFF * 0xFFFF_FFFF) by (nonlinear_arith)
            requires
                0 <= self.width <= 0xFFFF_FFFF,
                0 <= self.height <= 0xFFFF_FFFF,
        ;
        let wanted: u128 = (self.width as u128) * (self.height as u128) * 4;
        self.pixels.len() as u128 == wanted
    }
}

} // verus!
