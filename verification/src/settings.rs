//! The settings of the three stages, and the parts that they are made of.

use vstd::prelude::*;
use crate::error::ConfigError;
use crate::formats::{ImageFormat, ImageFormatSetting};

verus! {

/// Which of the default target sizes a build has selected. The sizes on offer
/// are the squares whose side is a power of two from 8 to 1024.
#[derive(Clone, Copy, Debug, PartialEq, Eq, Structural)]
pub struct DefaultSizeSelection {
    pub default_8x8: bool,
    pub default_16x16: bool,
    pub default_32x32: bool,
    pub default_64x64: bool,
    pub default_128x128: bool,
    pub default_256x256: bool,
    pub default_512x512: bool,
    pub default_1024x1024: bool,
}

impl DefaultSizeSelection {
    /// Whether the square of the given side is on offer and selected.
    pub open spec fn selects(self, side: u32) -> bool {
        ||| side == 8 && self.default_8x8
        ||| side == 16 && self.default_16x16
        ||| side == 32 && self.default_32x32
        ||| side == 64 && self.default_64x64
        ||| side == 128 && self.default_128x128
        ||| side == 256 && self.default_256x256
        ||| side == 512 && self.default_512x512
        ||| side == 1024 && self.default_1024x1024
    }

    /// The side of the default target: the smallest that is selected, if any is.
    pub open spec fn chosen_side(self) -> Option<u32> {
        if self.default_8x8 {
            Some(8u32)
        } else if self.default_16x16 {
            Some(16u32)
        } else if self.default_32x32 {
            Some(32u32)
        } else if self.default_64x64 {
            Some(64u32)
        } else if self.default_128x128 {
            Some(128u32)
        } else if self.default_256x256 {
            Some(256u32)
        } else if self.default_512x512 {
            Some(512u32)
        } else if self.default_1024x1024 {
            Some(1024u32)
        } else {
            None
        }
    }

    /// A selection of nothing.
    pub fn nothing() -> (selection: Self)
        ensures
            forall|side: u32| !selection.selects(side),
            selection.chosen_side() is None,
    {
        DefaultSizeSelection {
            default_8x8: false,
            default_16x16: false,
            default_32x32: false,
            default_64x64: false,
            default_128x128: false,
            default_256x256: false,
            default_512x512: false,
            default_1024x1024: false,
        }
    }
}

/// The chosen side is selected and no smaller side is; no side is chosen
/// exactly when none is selected.
pub proof fn lemma_chosen_side_is_least(selection: DefaultSizeSelection)
    ensures
        match selection.chosen_side() {
            Some(side) => selection.selects(side) && forall|other: u32|
                selection.selects(other) ==> side <= other,
            None => forall|other: u32| !selection.selects(other),
        },
{
}

/// The settings of the loader.
#[derive(Clone, Copy, Debug, PartialEq, Eq)]
pub struct SvgLoaderSettings {
    /// Width and height of the bitmap to make, in pixels.
    pub output_size: (u32, u32),
}

impl SvgLoaderSettings {
    /// What [`SvgLoaderSettings::with_default_size`] returns.
    pub open spec fn default_for(selection: DefaultSizeSelection) -> Result<
        SvgLoaderSettings,
        ConfigError,
    > {
        match selection.chosen_side() {
            Some(side) => Ok(SvgLoaderSettings { output_size: (side, side) }),
            None => Err(ConfigError::NoDefaultSize),
        }
    }

    /// The default settings of a build: a square target of the smallest side
    /// that the build has selected. Where it has selected none there is no
    /// default, and no size is made up in its place.
    pub fn with_default_size(selection: &DefaultSizeSelection) -> (settings: Result<
        SvgLoaderSettings,
        ConfigError,
    >)
        ensures
            settings == Self::default_for(*selection),
    {
        let side: u32 = if selection.default_8x8 {
            8
        } else if selection.default_16x16 {
            16
        } else if selection.default_32x32 {
            32
        } else if selection.default_64x64 {
            64
        } else if selection.default_128x128 {
            128
        } else if selection.default_256x256 {
            256
        } else if selection.default_512x512 {
            512
        } else if selection.default_1024x1024 {
            1024
        } else {
            return Err(ConfigError::NoDefaultSize);
        };
        Ok(SvgLoaderSettings { output_size: (side, side) })
    }
}

/// How a texture is addressed outside its edges.
#[derive(Clone, Copy, Debug, PartialEq, Eq, Structural)]
pub enum ImageAddressMode {
    ClampToEdge,
    Repeat,
    MirrorRepeat,
    ClampToBorder,
}

/// How the texels around a sample are weighed.
#[derive(Clone, Copy, Debug, PartialEq, Eq, Structural)]
pub enum ImageFilterMode {
    Nearest,
    Linear,
}

/// The test that a comparison sampler makes.
#[derive(Clone, Copy, Debug, PartialEq, Eq, Structural)]
pub enum ImageCompareFunction {
    Never,
    Less,
    Equal,
    LessEqual,
    Greater,
    NotEqual,
    GreaterEqual,
    Always,
}

/// The colour of the border, for the address mode that clamps to it.
#[derive(Clone, Copy, Debug, PartialEq, Eq, Structural)]
pub enum ImageSamplerBorderColor {
    TransparentBlack,
    OpaqueBlack,
    OpaqueWhite,
    Zero,
}

/// A full description of a sampler. The two bounds on the level of detail are
/// real numbers, kept as binary32 patterns.
#[derive(Debug, PartialEq, Eq)]
pub struct ImageSamplerDescriptor {
    pub label: Option<String>,
    pub address_mode_u: ImageAddressMode,
    pub address_mode_v: ImageAddressMode,
    pub address_mode_w: ImageAddressMode,
    pub mag_filter: ImageFilterMode,
    pub min_filter: ImageFilterMode,
    pub mipmap_filter: ImageFilterMode,
    pub lod_min_clamp_bits: u32,
    pub lod_max_clamp_bits: u32,
    pub compare: Option<ImageCompareFunction>,
    pub anisotropy_clamp: u16,
    pub border_color: Option<ImageSamplerBorderColor>,
}

impl Clone for ImageSamplerDescriptor {
    fn clone(&self) -> (copy: Self)
        ensures
            copy == *self,
    {
        ImageSamplerDescriptor {
            label: match &self.label {
                Some(text) => Some(text.clone()),
                None => None,
            },
            address_mode_u: self.address_mode_u,
            address_mode_v: self.address_mode_v,
            address_mode_w: self.address_mode_w,
            mag_filter: self.mag_filter,
            min_filter: self.min_filter,
            mipmap_filter: self.mipmap_filter,
            lod_min_clamp_bits: self.lod_min_clamp_bits,
            lod_max_clamp_bits: self.lod_max_clamp_bits,
            compare: self.compare,
            anisotropy_clamp: self.anisotropy_clamp,
            border_color: self.border_color,
        }
    }
}

/// How a bitmap is to be sampled.
#[derive(Debug, PartialEq, Eq)]
pub enum ImageSampler {
    /// As the program that loads the bitmap samples by default.
    Default,
    /// As described.
    Descriptor(ImageSamplerDescriptor),
}

impl Clone for ImageSampler {
    fn clone(&self) -> (copy: Self)
        ensures
            copy == *self,
    {
        match self {
            ImageSampler::Default => ImageSampler::Default,
            ImageSampler::Descriptor(descriptor) => ImageSampler::Descriptor(descriptor.clone()),
        }
    }
}

/// Where a bitmap is kept once loaded: in the main world, in the render
/// world, or in both.
#[derive(Clone, Copy, Debug, PartialEq, Eq, Structural)]
pub struct RenderAssetUsages {
    pub main_world: bool,
    pub render_world: bool,
}

impl Default for RenderAssetUsages {
    /// Kept in both worlds.
    fn default() -> (usages: Self)
        ensures
            usages == (RenderAssetUsages { main_world: true, render_world: true }),
    {
        RenderAssetUsages { main_world: true, render_world: true }
    }
}

/// The settings of the transformer.
#[derive(Debug, PartialEq, Eq)]
pub struct SvgToPngProcessorSettings {
    /// The format asked for. It bears on the choice of compressed formats
    /// only, never on the container that the bitmap is saved in.
    pub format: ImageFormatSetting,
    /// Whether the colours are in the sRGB colour space.
    pub is_srgb: bool,
    pub sampler: ImageSampler,
    pub asset_usage: RenderAssetUsages,
}

impl Default for SvgToPngProcessorSettings {
    fn default() -> (settings: Self)
        ensures
            settings == (SvgToPngProcessorSettings {
                format: ImageFormatSetting::FromExtension,
                is_srgb: true,
                sampler: ImageSampler::Default,
                asset_usage: RenderAssetUsages { main_world: true, render_world: true },
            }),
    {
        SvgToPngProcessorSettings {
            format: ImageFormatSetting::default(),
            is_srgb: true,
            sampler: ImageSampler::Default,
            asset_usage: RenderAssetUsages::default(),
        }
    }
}

impl Clone for SvgToPngProcessorSettings {
    fn clone(&self) -> (copy: Self)
        ensures
            copy == *self,
    {
        SvgToPngProcessorSettings {
            format: self.format,
            is_srgb: self.is_srgb,
            sampler: self.sampler.clone(),
            asset_usage: self.asset_usage,
        }
    }
}

/// What a bitmap loader needs to know of a saved bitmap, to read it as it was
/// meant.
#[derive(Debug, PartialEq, Eq)]
pub struct ImageLoaderSettings {
    pub format: ImageFormatSetting,
    pub is_srgb: bool,
    pub sampler: ImageSampler,
    pub asset_usage: RenderAssetUsages,
}

impl Clone for ImageLoaderSettings {
    fn clone(&self) -> (copy: Self)
        ensures
            copy == *self,
    {
        ImageLoaderSettings {
            format: self.format,
            is_srgb: self.is_srgb,
            sampler: self.sampler.clone(),
            asset_usage: self.asset_usage,
        }
    }
}

/// The one container that bitmaps are saved in.
pub open spec fn saved_format() -> ImageFormatSetting {
    ImageFormatSetting::Format(ImageFormat::Png)
}

} // verus!
