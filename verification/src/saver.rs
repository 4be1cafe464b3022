//! The third stage: from a raster asset to the bytes of a PNG file and the
//! settings that a bitmap loader needs to read them back.

use vstd::prelude::*;
use crate::codec::{encode_png, encoded_png};
use crate::error::SaveError;
use crate::formats::{ImageFormat, ImageFormatSetting};
use crate::raster::{RasterAsset, RasterAssetView};
use crate::settings::{saved_format, ImageLoaderSettings};

verus! {

/// The saver. Whatever format the settings of the transformer asked for, it
/// writes PNG files and no others.
#[derive(Clone, Copy, Debug, Default)]
pub struct PngSaver;

/// The outcome of a save, with the file by its view.
pub open spec fn saved_view(outcome: Result<(Vec<u8>, ImageLoaderSettings), SaveError>) -> Result<
    (Seq<u8>, ImageLoaderSettings),
    SaveError,
> {
    match outcome {
        Ok((file, reload)) => Ok((file@, reload)),
        Err(error) => Err(error),
    }
}

/// A file by its view, where there is one.
pub open spec fn file_view(file: Option<Vec<u8>>) -> Option<Seq<u8>> {
    match file {
        Some(bytes) => Some(bytes@),
        None => None,
    }
}

impl PngSaver {
    /// The settings to read a saved asset back with: the format is PNG, and the
    /// colour space, the sampler and the usage are the asset's.
    pub open spec fn reload_settings(asset: RasterAssetView) -> ImageLoaderSettings {
        ImageLoaderSettings {
            format: saved_format(),
            is_srgb: asset.is_srgb,
            sampler: asset.sampler,
            asset_usage: asset.asset_usage,
        }
    }

    /// What the saver makes of the codec's answer: the file with the settings to
    /// read it back, or an error where the codec gave no file.
    pub open spec fn finished(file: Option<Seq<u8>>, asset: RasterAssetView) -> Result<
        (Seq<u8>, ImageLoaderSettings),
        SaveError,
    > {
        match file {
            Some(bytes) => Ok((bytes, Self::reload_settings(asset))),
            None => Err(SaveError::Encode),
        }
    }

    /// What a save of the asset gives. An asset without four bytes for each of
    /// its pixels is no image, and is refused before the codec sees it.
    pub open spec fn saved(asset: RasterAssetView) -> Result<
        (Seq<u8>, ImageLoaderSettings),
        SaveError,
    > {
        if asset.well_formed() {
            Self::finished(encoded_png(asset.pixels, asset.width, asset.height), asset)
        } else {
            Err(SaveError::Encode)
        }
    }

    /// Puts the codec's answer together with the settings to read the file
    /// back.
    pub fn finish(file: Option<Vec<u8>>, asset: &RasterAsset) -> (outcome: Result<
        (Vec<u8>, ImageLoaderSettings),
        SaveError,
    >)
        ensures
            saved_view(outcome) == Self::finished(file_view(file), asset@),
    {
        match file {
            Some(bytes) => Ok(
                (
                    bytes,
                    ImageLoaderSettings {
                        format: ImageFormatSetting::Format(ImageFormat::Png),
                        is_srgb: asset.is_srgb,
                        sampler: asset.sampler.clone(),
                        asset_usage: asset.asset_usage,
                    },
                ),
            ),
            None => Err(SaveError::Encode),
        }
    }

    /// Serializes the pixels of an asset as a PNG file of eight-bit RGBA, and
    /// gives the settings to read the file back with.
    pub fn save(&self, asset: &RasterAsset) -> (outcome: Result<
        (Vec<u8>, ImageLoaderSettings),
        SaveError,
    >)
        ensures
            saved_view(outcome) == Self::saved(asset@),
    {
        if !asset.is_well_formed() {
            return Err(SaveError::Encode);
        }
        Self::finish(encode_png(asset.pixels.as_slice(), asset.width, asset.height), asset)
    }
}

} // verus!
