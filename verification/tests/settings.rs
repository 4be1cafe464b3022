use bevy_svg_processor::error::ConfigError;
use bevy_svg_processor::formats::ImageFormatSetting;
use bevy_svg_processor::settings::{
    DefaultSizeSelection, ImageAddressMode, ImageCompareFunction, ImageFilterMode, ImageSampler,
    ImageSamplerBorderColor, ImageSamplerDescriptor, RenderAssetUsages, SvgLoaderSettings,
    SvgToPngProcessorSettings,
};

fn selection(flags: [bool; 8]) -> DefaultSizeSelection {
    DefaultSizeSelection {
        default_8x8: flags[0],
        default_16x16: flags[1],
        default_32x32: flags[2],
        default_64x64: flags[3],
        default_128x128: flags[4],
        default_256x256: flags[5],
        default_512x512: flags[6],
        default_1024x1024: flags[7],
    }
}

#[test]
fn no_selection_gives_no_default() {
    assert_eq!(
        SvgLoaderSettings::with_default_size(&DefaultSizeSelection::nothing()),
        Err(ConfigError::NoDefaultSize)
    );
    assert_eq!(
        SvgLoaderSettings::with_default_size(&selection([false; 8])),
        Err(ConfigError::NoDefaultSize)
    );
}

#[test]
fn nothing_selects_nothing() {
    assert_eq!(DefaultSizeSelection::nothing(), selection([false; 8]));
}

#[test]
fn each_size_on_offer_gives_its_square() {
    let sides = [8u32, 16, 32, 64, 128, 256, 512, 1024];
    for (index, side) in sides.iter().enumerate() {
        let mut flags = [false; 8];
        flags[index] = true;
        assert_eq!(
            SvgLoaderSettings::with_default_size(&selection(flags)),
            Ok(SvgLoaderSettings { output_size: (*side, *side) })
        );
    }
}

#[test]
fn the_smallest_selected_size_is_the_default() {
    let mut flags = [false; 8];
    flags[1] = true;
    flags[6] = true;
    assert_eq!(
        SvgLoaderSettings::with_default_size(&selection(flags)),
        Ok(SvgLoaderSettings { output_size: (16, 16) })
    );
    assert_eq!(
        SvgLoaderSettings::with_default_size(&selection([true; 8])),
        Ok(SvgLoaderSettings { output_size: (8, 8) })
    );
    for bits in 1u32..256 {
        let mut flags = [false; 8];
        for index in 0..8 {
            flags[index] = bits & (1 << index) != 0;
        }
        let side = 8u32 << bits.trailing_zeros();
        assert_eq!(
            SvgLoaderSettings::with_default_size(&selection(flags)),
            Ok(SvgLoaderSettings { output_size: (side, side) })
        );
    }
}

#[test]
fn default_settings_of_the_transformer() {
    assert_eq!(
        SvgToPngProcessorSettings::default(),
        SvgToPngProcessorSettings {
            format: ImageFormatSetting::FromExtension,
            is_srgb: true,
            sampler: ImageSampler::Default,
            asset_usage: RenderAssetUsages { main_world: true, render_world: true },
        }
    );
}

#[test]
fn an_asset_is_kept_in_both_worlds_by_default() {
    assert_eq!(
        RenderAssetUsages::default(),
        RenderAssetUsages { main_world: true, render_world: true }
    );
}

#[test]
fn a_clone_of_the_settings_is_equal_to_them() {
    let settings = SvgToPngProcessorSettings {
        format: ImageFormatSetting::Guess,
        is_srgb: false,
        sampler: ImageSampler::Descriptor(ImageSamplerDescriptor {
            label: Some(String::from("icons")),
            address_mode_u: ImageAddressMode::Repeat,
            address_mode_v: ImageAddressMode::MirrorRepeat,
            address_mode_w: ImageAddressMode::ClampToBorder,
            mag_filter: ImageFilterMode::Linear,
            min_filter: ImageFilterMode::Nearest,
            mipmap_filter: ImageFilterMode::Linear,
            lod_min_clamp_bits: 0.5f32.to_bits(),
            lod_max_clamp_bits: 32.0f32.to_bits(),
            compare: Some(ImageCompareFunction::LessEqual),
            anisotropy_clamp: 4,
            border_color: Some(ImageSamplerBorderColor::OpaqueWhite),
        }),
        asset_usage: RenderAssetUsages { main_world: false, render_world: true },
    };
    let copy = settings.clone();
    assert_eq!(copy, settings);
    assert_eq!(copy.sampler.clone(), settings.sampler);
    assert_eq!(ImageSampler::Default.clone(), ImageSampler::Default);
}
