//! Turns vector images into bitmaps when assets are built, so that a program
//! loads a ready-made picture at run time.
//!
//! The work goes through three stages, each with its settings: a loader parses
//! the bytes into a scene, a transformer rasterizes the scene at a fixed size,
//! and a saver writes the pixels out together with the settings that a bitmap
//! loader needs to read them back.
//!
//! The stages and what they decide are verified. The scene, the pixel buffer
//! and the codec come from crates of their own: `scene`, `pixmap` and `codec`
//! hold the calls into them, with what is taken on trust of each. The parser
//! and the rasterizer are the caller's to run: the one before the first stage,
//! the other between the two halves of the second.

pub mod error;
pub mod formats;
pub mod scale;
pub mod settings;
pub mod raster;

pub mod scene;
pub mod pixmap;
pub mod codec;

pub mod loader;
pub mod processor;
pub mod saver;
pub mod pipeline;

pub use error::{ConfigError, LoadError, SaveError, TransformError};
pub use loader::{SvgAsset, SvgLoader};
pub use processor::SvgToPngProcessor;
pub use raster::RasterAsset;
pub use saver::PngSaver;
pub use settings::{ImageLoaderSettings, SvgLoaderSettings, SvgToPngProcessorSettings};
