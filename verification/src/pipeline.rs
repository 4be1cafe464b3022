//! What holds of the stages together: of an asset that has gone through the
//! transformer, and of what the saver then writes of it.

use vstd::prelude::*;
use crate::codec::encoded_png;
use crate::error::{ConfigError, SaveError, TransformError};
use crate::formats::CompressedFormat;
use crate::processor::SvgToPngProcessor;
use crate::raster::RasterAssetView;
use crate::saver::PngSaver;
use crate::scale::{buffer_bytes, planned, RenderPlan, SourceSize, MAX_DIMENSION};
use crate::settings::{
    saved_format,
    DefaultSizeSelection,
    ImageLoaderSettings,
    SvgLoaderSettings,
    SvgToPngProcessorSettings,
};

verus! {

/// A raster asset that comes of a transform has the width and the height of
/// the target, neither of them zero, and four bytes for each pixel. Its colour
/// space, sampler and usage are those of the settings, and its compressed
/// formats are among those that the device supports.
pub proof fn lemma_transformed_asset_matches_target(
    processor: SvgToPngProcessor,
    source: SourceSize,
    target: (u32, u32),
    settings: SvgToPngProcessorSettings,
    raster: RasterAssetView,
)
    requires
        processor.transforms_to(source, target, settings, Ok(raster)),
    ensures
        !source.is_degenerate(),
        0 < target.0 <= MAX_DIMENSION,
        0 < target.1 <= MAX_DIMENSION,
        raster.width == target.0,
        raster.height == target.1,
        raster.pixels.len() == target.0 * target.1 * 4,
        raster.well_formed(),
        raster.is_srgb == settings.is_srgb,
        raster.sampler == settings.sampler,
        raster.asset_usage == settings.asset_usage,
        raster.compressed_formats.subset_of(processor.supported_compressed_formats@),
{
}

/// The two halves of the transformer make a transform between them: where the
/// first half has planned a render and the rasterizer has drawn into the buffer
/// that it was handed, leaving its size as it was, what the second half makes
/// of the buffer is an outcome of the transform.
pub proof fn lemma_two_halves_make_a_transform(
    processor: SvgToPngProcessor,
    source: SourceSize,
    target: (u32, u32),
    settings: SvgToPngProcessorSettings,
    plan: RenderPlan,
    drawn: Seq<u8>,
)
    requires
        planned(source, target) == Ok::<RenderPlan, TransformError>(plan),
        drawn.len() == plan.buffer_len,
    ensures
        processor.transforms_to(
            source,
            target,
            settings,
            processor.developed(drawn, target, (plan.width, plan.height), settings),
        ),
{
    assert(processor.developed(drawn, target, (plan.width, plan.height), settings)
        == processor.developed(drawn, target, target, settings));
}

/// A degenerate scene is refused as such, whatever the target and the settings
/// are, and so is a scene with a degenerate width or height alone.
pub proof fn lemma_degenerate_source_is_refused(
    processor: SvgToPngProcessor,
    source: SourceSize,
    target: (u32, u32),
    settings: SvgToPngProcessorSettings,
    outcome: Result<RasterAssetView, TransformError>,
)
    requires
        source.is_degenerate(),
        processor.transforms_to(source, target, settings, outcome),
    ensures
        outcome == Err::<RasterAssetView, TransformError>(TransformError::DegenerateSource),
{
}

/// A target with a side of zero is refused for want of a buffer, unless the
/// scene is refused first.
pub proof fn lemma_empty_target_is_refused(
    processor: SvgToPngProcessor,
    source: SourceSize,
    target: (u32, u32),
    settings: SvgToPngProcessorSettings,
    outcome: Result<RasterAssetView, TransformError>,
)
    requires
        !source.is_degenerate(),
        target.0 == 0 || target.1 == 0,
        processor.transforms_to(source, target, settings, outcome),
    ensures
        outcome == Err::<RasterAssetView, TransformError>(TransformError::Allocation),
{
}

/// The settings to read a saved asset back with have the colour space, the
/// sampler and the usage of the settings that the asset was transformed with.
pub proof fn lemma_reload_settings_follow_transform_settings(
    processor: SvgToPngProcessor,
    source: SourceSize,
    target: (u32, u32),
    settings: SvgToPngProcessorSettings,
    raster: RasterAssetView,
    file: Seq<u8>,
    reload: ImageLoaderSettings,
)
    requires
        processor.transforms_to(source, target, settings, Ok(raster)),
        PngSaver::saved(raster) == Ok::<(Seq<u8>, ImageLoaderSettings), SaveError>((file, reload)),
    ensures
        reload.is_srgb == settings.is_srgb,
        reload.sampler == settings.sampler,
        reload.asset_usage == settings.asset_usage,
{
}

/// The settings to read a saved asset back with name PNG as the format,
/// whatever format the settings of the transformer asked for.
pub proof fn lemma_saved_format_is_fixed(
    processor: SvgToPngProcessor,
    source: SourceSize,
    target: (u32, u32),
    settings: SvgToPngProcessorSettings,
    raster: RasterAssetView,
    file: Seq<u8>,
    reload: ImageLoaderSettings,
)
    requires
        processor.transforms_to(source, target, settings, Ok(raster)),
        PngSaver::saved(raster) == Ok::<(Seq<u8>, ImageLoaderSettings), SaveError>((file, reload)),
    ensures
        reload.format == saved_format(),
{
}

/// The file saved of a transformed asset is what the codec writes for a
/// picture of the target's width and height, and the saver refuses a
/// transformed asset only where the codec does.
pub proof fn lemma_saved_file_has_target_size(
    processor: SvgToPngProcessor,
    source: SourceSize,
    target: (u32, u32),
    settings: SvgToPngProcessorSettings,
    raster: RasterAssetView,
)
    requires
        processor.transforms_to(source, target, settings, Ok(raster)),
    ensures
        PngSaver::saved(raster) == PngSaver::finished(
            encoded_png(raster.pixels, target.0, target.1),
            raster,
        ),
        raster.pixels.len() == buffer_bytes(target.0, target.1),
        PngSaver::saved(raster) matches Ok((file, reload)) ==> encoded_png(
            raster.pixels,
            target.0,
            target.1,
        ) == Some(file),
        PngSaver::saved(raster) is Err ==> encoded_png(raster.pixels, target.0, target.1) is None,
{
}

/// Where a build has selected none of the sizes on offer, there are no default
/// settings for the loader.
pub proof fn lemma_no_selection_no_default(selection: DefaultSizeSelection)
    requires
        forall|side: u32| !selection.selects(side),
    ensures
        SvgLoaderSettings::default_for(selection) == Err::<SvgLoaderSettings, ConfigError>(
            ConfigError::NoDefaultSize,
        ),
{
    assert(!selection.selects(8));
    assert(!selection.selects(16));
    assert(!selection.selects(32));
    assert(!selection.selects(64));
    assert(!selection.selects(128));
    assert(!selection.selects(256));
    assert(!selection.selects(512));
    assert(!selection.selects(1024));
}

/// Default settings, where there are any, ask for a square whose side is one
/// of the sizes on offer and is selected.
pub proof fn lemma_default_is_a_selected_square(selection: DefaultSizeSelection)
    ensures
        SvgLoaderSettings::default_for(selection) matches Ok(settings) ==> {
            &&& settings.output_size.0 == settings.output_size.1
            &&& selection.selects(settings.output_size.0)
        },
{
}

/// A device that supports no compressed format has none chosen for any asset.
pub proof fn lemma_nothing_chosen_without_support(
    processor: SvgToPngProcessor,
    source: SourceSize,
    target: (u32, u32),
    settings: SvgToPngProcessorSettings,
    raster: RasterAssetView,
)
    requires
        processor.supported_compressed_formats@ == Set::<CompressedFormat>::empty(),
        processor.transforms_to(source, target, settings, Ok(raster)),
    ensures
        raster.compressed_formats == Set::<CompressedFormat>::empty(),
{
    assert(raster.compressed_formats =~= Set::<CompressedFormat>::empty());
}

} // verus!
