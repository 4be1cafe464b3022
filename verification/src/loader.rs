//! The first stage: from a parsed vector image to a scene and the size of the
//! bitmap to make of it. The parser runs before the stage, on the bytes of the
//! file; the stage takes its answer.

use vstd::prelude::*;
use crate::error::LoadError;
use crate::scale::SourceSize;
use crate::scene::tree_size;
use crate::settings::SvgLoaderSettings;

verus! {

/// A parsed vector image together with the size of the bitmap asked of it.
pub struct SvgAsset {
    /// The scene.
    pub svg_tree: usvg::Tree,
    /// The scene's own size, in source units.
    pub source_size: SourceSize,
    /// Width and height of the bitmap to make, in pixels.
    pub output_size: (u32, u32),
}

/// The loader of vector images.
#[derive(Clone, Copy, Debug, Default)]
pub struct SvgLoader;

impl SvgLoader {
    /// The extensions of the files that the loader takes.
    pub fn extensions(&self) -> (list: &'static [&'static str])
        ensures
            list@.len() == 1,
            list@[0]@ == "svg"@,
    {
        &["svg"]
    }

    /// Makes an asset of the parser's answer. The parser's error ends the load.
    /// Its scene becomes an asset with the target size of the settings, taken
    /// as it is: nothing is rasterized and no size is changed.
    pub fn load(
        &self,
        parsed: Result<usvg::Tree, usvg::Error>,
        settings: &SvgLoaderSettings,
    ) -> (asset: Result<SvgAsset, LoadError>)
        ensures
            parsed is Err ==> (asset matches Err(error) && error == LoadError::Parse),
            parsed matches Ok(tree) ==> {
                &&& asset matches Ok(loaded)
                &&& loaded.svg_tree == tree
                &&& loaded.output_size == settings.output_size
                &&& !loaded.source_size.is_degenerate()
            },
    {
        match parsed {
            Ok(svg_tree) => {
                let source_size = tree_size(&svg_tree);
                Ok(SvgAsset { svg_tree, source_size, output_size: settings.output_size })
            },
            Err(_) => Err(LoadError::Parse),
        }
    }
}

} // verus!
