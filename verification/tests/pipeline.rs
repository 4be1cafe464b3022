use bevy_svg_processor::formats::{CompressedImageFormats, ImageFormat, ImageFormatSetting};
use bevy_svg_processor::loader::SvgLoader;
use bevy_svg_processor::processor::SvgToPngProcessor;
use bevy_svg_processor::saver::PngSaver;
use bevy_svg_processor::settings::{
    DefaultSizeSelection, ImageAddressMode, ImageFilterMode, ImageLoaderSettings, ImageSampler,
    ImageSamplerDescriptor, RenderAssetUsages, SvgLoaderSettings, SvgToPngProcessorSettings,
};

const BADGE: &str = r##"<svg xmlns="http://www.w3.org/2000/svg" width="100" height="100">
<rect width="100" height="100" fill="#102030"/>
<circle cx="50" cy="50" r="30" fill="#ffcc00" fill-opacity="0.5"/>
</svg>"##;

fn run(
    target: (u32, u32),
    settings: &SvgToPngProcessorSettings,
) -> (Vec<u8>, Vec<u8>, ImageLoaderSettings) {
    let parsed = usvg::Tree::from_data(BADGE.as_bytes(), &usvg::Options::default());
    let asset = SvgLoader.load(parsed, &SvgLoaderSettings { output_size: target }).unwrap();
    let processor = SvgToPngProcessor::from_probe(None);
    let mut job = processor.begin_transform(&asset).unwrap();
    let scale = tiny_skia::Transform::from_scale(
        job.plan.scale_x.target as f32 / f32::from_bits(job.plan.scale_x.source_bits),
        job.plan.scale_y.target as f32 / f32::from_bits(job.plan.scale_y.source_bits),
    );
    resvg::render(&asset.svg_tree, scale, &mut job.pixmap.as_mut());
    let raster = processor.finish_transform(job, settings).unwrap();
    let (file, reload) = PngSaver.save(&raster).unwrap();
    (raster.pixels, file, reload)
}

fn settings_with(format: ImageFormatSetting, is_srgb: bool) -> SvgToPngProcessorSettings {
    SvgToPngProcessorSettings {
        format,
        is_srgb,
        sampler: ImageSampler::Descriptor(ImageSamplerDescriptor {
            label: Some(String::from("badge")),
            address_mode_u: ImageAddressMode::MirrorRepeat,
            address_mode_v: ImageAddressMode::Repeat,
            address_mode_w: ImageAddressMode::ClampToEdge,
            mag_filter: ImageFilterMode::Linear,
            min_filter: ImageFilterMode::Nearest,
            mipmap_filter: ImageFilterMode::Nearest,
            lod_min_clamp_bits: 1.0f32.to_bits(),
            lod_max_clamp_bits: 8.0f32.to_bits(),
            compare: None,
            anisotropy_clamp: 2,
            border_color: None,
        }),
        asset_usage: RenderAssetUsages { main_world: false, render_world: true },
    }
}

#[test]
fn the_saved_file_decodes_to_the_target_size() {
    for target in [(64u32, 64u32), (8, 8), (1, 1), (17, 5), (3, 200)] {
        let (pixels, file, _) = run(target, &SvgToPngProcessorSettings::default());
        let decoded = image::load_from_memory_with_format(&file, image::ImageFormat::Png).unwrap();
        assert_eq!((decoded.width(), decoded.height()), target);
        assert_eq!(decoded.into_rgba8().into_raw(), pixels);
    }
}

#[test]
fn the_saved_file_of_the_default_size_decodes_to_that_size() {
    let mut selection = DefaultSizeSelection::nothing();
    selection.default_32x32 = true;
    let settings = SvgLoaderSettings::with_default_size(&selection).unwrap();
    let (_, file, _) = run(settings.output_size, &SvgToPngProcessorSettings::default());
    let decoded = image::load_from_memory_with_format(&file, image::ImageFormat::Png).unwrap();
    assert_eq!((decoded.width(), decoded.height()), (32, 32));
}

#[test]
fn the_reload_settings_are_those_of_the_transform() {
    for is_srgb in [true, false] {
        for format in [
            ImageFormatSetting::FromExtension,
            ImageFormatSetting::Guess,
            ImageFormatSetting::Format(ImageFormat::Png),
            ImageFormatSetting::Format(ImageFormat::Jpeg),
        ] {
            let settings = settings_with(format, is_srgb);
            let (_, _, reload) = run((16, 16), &settings);
            assert_eq!(reload.is_srgb, settings.is_srgb);
            assert_eq!(reload.sampler, settings.sampler);
            assert_eq!(reload.asset_usage, settings.asset_usage);
        }
    }
    let (_, _, reload) = run((16, 16), &SvgToPngProcessorSettings::default());
    assert!(reload.is_srgb);
    assert_eq!(reload.sampler, ImageSampler::Default);
    assert_eq!(reload.asset_usage, RenderAssetUsages::default());
}

#[test]
fn the_saved_format_is_png_whatever_was_asked_for() {
    for format in [
        ImageFormatSetting::FromExtension,
        ImageFormatSetting::Guess,
        ImageFormatSetting::Format(ImageFormat::Jpeg),
        ImageFormatSetting::Format(ImageFormat::Ktx2),
        ImageFormatSetting::Format(ImageFormat::WebP),
    ] {
        let (_, file, reload) = run((8, 8), &settings_with(format, true));
        assert_eq!(reload.format, ImageFormatSetting::Format(ImageFormat::Png));
        assert_eq!(image::guess_format(&file).unwrap(), image::ImageFormat::Png);
    }
}

#[test]
fn the_format_asked_for_does_not_change_the_file() {
    let (pixels, file, _) = run((24, 24), &settings_with(ImageFormatSetting::FromExtension, true));
    for format in [ImageFormat::Jpeg, ImageFormat::Ktx2, ImageFormat::Png] {
        let (other_pixels, other_file, _) =
            run((24, 24), &settings_with(ImageFormatSetting::Format(format), true));
        assert_eq!(other_pixels, pixels);
        assert_eq!(other_file, file);
    }
}

#[test]
fn the_pipeline_is_the_same_for_the_same_input() {
    let settings = SvgToPngProcessorSettings::default();
    assert_eq!(run((20, 30), &settings), run((20, 30), &settings));
}

#[test]
fn a_device_without_compressed_formats_has_none_chosen() {
    let parsed = usvg::Tree::from_data(BADGE.as_bytes(), &usvg::Options::default());
    let asset = SvgLoader.load(parsed, &SvgLoaderSettings { output_size: (4, 4) }).unwrap();
    let processor = SvgToPngProcessor::from_probe(None);
    let mut job = processor.begin_transform(&asset).unwrap();
    resvg::render(
        &asset.svg_tree,
        tiny_skia::Transform::from_scale(0.04, 0.04),
        &mut job.pixmap.as_mut(),
    );
    let raster = processor.finish_transform(job, &SvgToPngProcessorSettings::default()).unwrap();
    assert_eq!(raster.compressed_formats, CompressedImageFormats::none());
}
