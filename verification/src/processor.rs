//! The second stage: from a scene to a bitmap of the size asked for.
//!
//! The stage has two halves, with the rasterizer at work between them. The
//! first settles the geometry and hands out a blank pixel buffer with the scale
//! to draw at. The second takes the buffer back, drawn into, and makes the
//! raster asset of it.

use vstd::prelude::*;
use crate::codec::{decode_png, decoded_png};
use crate::error::TransformError;
use crate::formats::{negotiate, negotiated_formats, CompressedFormat, CompressedImageFormats};
use crate::loader::SvgAsset;
use crate::raster::{DecodedImage, RasterAsset, RasterAssetView};
use crate::pixmap::{encode_pixmap, pixmap_bytes, pixmap_new, pixmap_png, pixmap_size};
use crate::scale::{buffer_bytes, plan_render, planned, RenderPlan, SourceSize};
use crate::settings::SvgToPngProcessorSettings;

verus! {

/// The transformer. It is made once, with the compressed formats that the
/// device supports, and keeps them as they were for as long as it lives.
#[derive(Clone, Copy, Debug, PartialEq, Eq, Structural)]
pub struct SvgToPngProcessor {
    pub supported_compressed_formats: CompressedImageFormats,
}

/// A render that has been planned and awaits the rasterizer, or has been
/// drawn and awaits the second half of the transform. The rasterizer is to draw
/// the scene into `pixmap`, scaled by the two factors of `plan` and not moved.
pub struct RenderJob {
    /// The geometry that was settled.
    pub plan: RenderPlan,
    /// The pixel buffer, of the planned width and height.
    pub pixmap: tiny_skia::Pixmap,
}

/// The outcome of a transform, with the asset by its view.
pub open spec fn outcome_view(outcome: Result<RasterAsset, TransformError>) -> Result<
    RasterAssetView,
    TransformError,
> {
    match outcome {
        Ok(asset) => Ok(asset@),
        Err(error) => Err(error),
    }
}

/// A picture by its view, where there is one.
pub open spec fn picture_view(picture: Option<DecodedImage>) -> Option<(Seq<u8>, u32, u32)> {
    match picture {
        Some(decoded) => Some(decoded@),
        None => None,
    }
}

impl SvgToPngProcessor {
    /// A transformer for a device that supports the given formats.
    pub fn new(supported_compressed_formats: CompressedImageFormats) -> (processor: Self)
        ensures
            processor.supported_compressed_formats == supported_compressed_formats,
    {
        SvgToPngProcessor { supported_compressed_formats }
    }

    /// A transformer for what a probe of the device has found. Where there is
    /// no device to ask, no compressed format counts as supported: there is
    /// always a transformer.
    pub fn from_probe(probe: Option<CompressedImageFormats>) -> (processor: Self)
        ensures
            probe matches Some(found) ==> processor.supported_compressed_formats == found,
            probe is None ==> processor.supported_compressed_formats == (CompressedImageFormats {
                astc_ldr: false,
                bc: false,
                etc2: false,
            }),
            probe is None ==> processor.supported_compressed_formats@ == Set::<
                CompressedFormat,
            >::empty(),
    {
        match probe {
            Some(found) => SvgToPngProcessor { supported_compressed_formats: found },
            None => SvgToPngProcessor {
                supported_compressed_formats: CompressedImageFormats::none(),
            },
        }
    }

    /// The raster asset that holds the given pixels: it has the size of the
    /// target, the colour space, sampler and usage of the settings, and the
    /// compressed formats that the settings ask for and the device supports.
    pub open spec fn raster_of(
        self,
        pixels: Seq<u8>,
        target: (u32, u32),
        settings: SvgToPngProcessorSettings,
    ) -> RasterAssetView {
        RasterAssetView {
            pixels,
            width: target.0,
            height: target.1,
            is_srgb: settings.is_srgb,
            sampler: settings.sampler,
            asset_usage: settings.asset_usage,
            compressed_formats: negotiated_formats(
                settings.format,
                self.supported_compressed_formats@,
            ),
        }
    }

    /// What becomes of a decoded picture: a raster asset, where the picture has
    /// the size of the target and four bytes for each pixel.
    pub open spec fn assembled(
        self,
        picture: Option<(Seq<u8>, u32, u32)>,
        target: (u32, u32),
        settings: SvgToPngProcessorSettings,
    ) -> Result<RasterAssetView, TransformError> {
        match picture {
            Some((pixels, width, height)) => if width == target.0 && height == target.1
                && pixels.len() == buffer_bytes(width, height) {
                Ok(self.raster_of(pixels, target, settings))
            } else {
                Err(TransformError::Render)
            },
            None => Err(TransformError::Render),
        }
    }

    /// What becomes of a rendered pixmap with the given bytes and size: it is
    /// written out as a PNG file, read back, and assembled.
    pub open spec fn developed(
        self,
        bytes: Seq<u8>,
        size: (u32, u32),
        target: (u32, u32),
        settings: SvgToPngProcessorSettings,
    ) -> Result<RasterAssetView, TransformError> {
        match pixmap_png(bytes, size.0, size.1) {
            Some(file) => self.assembled(decoded_png(file), target, settings),
            None => Err(TransformError::Render),
        }
    }

    /// Whether `outcome` can come of a transform of a scene of size `source` to
    /// a target of `target` pixels. Where no plan can be made, the outcome is
    /// the plan's error. Where one can, the rasterizer draws some picture into
    /// a buffer of the planned size, and the outcome is what becomes of it.
    pub open spec fn transforms_to(
        self,
        source: SourceSize,
        target: (u32, u32),
        settings: SvgToPngProcessorSettings,
        outcome: Result<RasterAssetView, TransformError>,
    ) -> bool {
        match planned(source, target) {
            Ok(plan) => exists|rendered: Seq<u8>|
                rendered.len() == plan.buffer_len && outcome == #[trigger] self.developed(
                    rendered,
                    target,
                    target,
                    settings,
                ),
            Err(error) => outcome == Err::<RasterAssetView, TransformError>(error),
        }
    }

    /// Settles the geometry of the render of an asset.
    pub fn plan(&self, asset: &SvgAsset) -> (plan: Result<RenderPlan, TransformError>)
        ensures
            plan == planned(asset.source_size, asset.output_size),
    {
        plan_render(asset.source_size, asset.output_size)
    }

    /// Makes a raster asset of a decoded picture, or refuses the picture.
    pub fn assemble(
        &self,
        picture: Option<DecodedImage>,
        target: (u32, u32),
        settings: &SvgToPngProcessorSettings,
    ) -> (outcome: Result<RasterAsset, TransformError>)
        ensures
            outcome_view(outcome) == self.assembled(picture_view(picture), target, *settings),
    {
        match picture {
            Some(decoded) => {
                assert(0 <= decoded.width * decoded.height <= 0xFFFF_FFFF * 0xFFFF_FFFF)
                    by (nonlinear_arith)
                    requires
                        0 <= decoded.width <= 0xFFFF_FFFF,
                        0 <= decoded.height <= 0xFFFF_FFFF,
                ;
                let wanted: u128 = (decoded.width as u128) * (decoded.height as u128) * 4;
                if decoded.width == target.0 && decoded.height == target.1
                    && decoded.pixels.len() as u128 == wanted {
                    Ok(
                        RasterAsset {
                            pixels: decoded.pixels,
                            width: target.0,
                            height: target.1,
                            is_srgb: settings.is_srgb,
                            sampler: settings.sampler.clone(),
                            asset_usage: settings.asset_usage,
                            compressed_formats: negotiate(
                                settings.format,
                                self.supported_compressed_formats,
                            ),
                        },
                    )
                } else {
                    Err(TransformError::Render)
                }
            },
            None => Err(TransformError::Render),
        }
    }

    /// Makes a raster asset of a rendered pixmap. The pixmap is written out as
    /// a PNG file, which undoes the multiplication of its colours by their
    /// alpha, and is read back as plain RGBA.
    pub fn develop(
        &self,
        pixmap: &tiny_skia::Pixmap,
        target: (u32, u32),
        settings: &SvgToPngProcessorSettings,
    ) -> (outcome: Result<RasterAsset, TransformError>)
        ensures
            outcome_view(outcome) == self.developed(
                pixmap_bytes(*pixmap),
                pixmap_size(*pixmap),
                target,
                *settings,
            ),
    {
        match encode_pixmap(pixmap) {
            Some(file) => self.assemble(decode_png(file.as_slice()), target, settings),
            None => Err(TransformError::Render),
        }
    }

    /// The first half of a transform: settles the geometry and allocates the
    /// pixel buffer. A degenerate scene is refused before anything is computed
    /// from its size, and a target that no buffer can be had for before
    /// anything is allocated. The buffer that comes back has the size of the
    /// target and four zero bytes for each pixel.
    pub fn begin_transform(&self, asset: &SvgAsset) -> (job: Result<RenderJob, TransformError>)
        ensures
            match planned(asset.source_size, asset.output_size) {
                Ok(plan) => {
                    &&& job matches Ok(begun)
                    &&& begun.plan == plan
                    &&& pixmap_size(begun.pixmap) == asset.output_size
                    &&& pixmap_bytes(begun.pixmap).len() == plan.buffer_len
                    &&& forall|i: int|
                        0 <= i < plan.buffer_len ==> #[trigger] pixmap_bytes(begun.pixmap)[i] == 0u8
                },
                Err(error) => job matches Err(refused) && refused == error,
            },
    {
        let plan = match plan_render(asset.source_size, asset.output_size) {
            Ok(plan) => plan,
            Err(error) => {
                return Err(error);
            },
        };
        match pixmap_new(plan.width, plan.height) {
            Some(pixmap) => Ok(RenderJob { plan, pixmap }),
            None => Err(TransformError::Allocation),
        }
    }

    /// The second half of a transform: makes the raster asset of a job that the
    /// rasterizer has drawn. A raster asset that comes back has the size that
    /// was planned and four bytes for each pixel, whatever was done to the job
    /// in between.
    pub fn finish_transform(&self, job: RenderJob, settings: &SvgToPngProcessorSettings) -> (outcome:
        Result<RasterAsset, TransformError>)
        ensures
            outcome_view(outcome) == self.developed(
                pixmap_bytes(job.pixmap),
                pixmap_size(job.pixmap),
                (job.plan.width, job.plan.height),
                *settings,
            ),
            outcome matches Ok(raster) ==> {
                &&& raster.well_formed()
                &&& raster@.pixels.len() == buffer_bytes(job.plan.width, job.plan.height)
                &&& raster@ == self.raster_of(
                    raster@.pixels,
                    (job.plan.width, job.plan.height),
                    *settings,
                )
            },
            outcome matches Err(error) ==> error == TransformError::Render,
    {
        self.develop(&job.pixmap, (job.plan.width, job.plan.height), settings)
    }
}

} // verus!
