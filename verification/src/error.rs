//! The ways in which a stage of the pipeline can fail.
//!
//! Every error but [`ConfigError`] ends the work on one asset only.

use vstd::prelude::*;

verus! {

/// No default target size can be had from the build's configuration.
#[derive(Clone, Copy, Debug, PartialEq, Eq, Structural)]
pub enum ConfigError {
    /// None of the sizes on offer was selected.
    NoDefaultSize,
}

/// The loader could not turn the bytes into a vector scene.
#[derive(Clone, Copy, Debug, PartialEq, Eq, Structural)]
pub enum LoadError {
    /// The bytes are not a vector image that the parser accepts.
    Parse,
}

/// The transformer could not rasterize an asset.
#[derive(Clone, Copy, Debug, PartialEq, Eq, Structural)]
pub enum TransformError {
    /// The scene's own width or height is not a positive, finite number.
    DegenerateSource,
    /// No pixel buffer of the target size can be had.
    Allocation,
    /// The rasterizer did not hand back a picture of the target size.
    Render,
}

/// The saver could not serialize a raster asset.
#[derive(Clone, Copy, Debug, PartialEq, Eq, Structural)]
pub enum SaveError {
    /// The pixels do not make an image that the container codec accepts.
    Encode,
}

} // verus!
