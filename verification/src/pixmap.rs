//! The pixel buffer of the rasterizer: `tiny_skia`'s pixmap, as far as the
//! transformer needs it.
//!
//! Nothing in this file is proved. Each item says what it takes on trust from
//! the code that it calls.

use vstd::prelude::*;
use crate::scale::{buffer_bytes, target_fits};

verus! {

/// `tiny_skia::Pixmap`: a rectangle of pixels, four bytes each, that owns its
/// bytes. What the library knows of one is its size and its bytes.
#[verifier::external_type_specification]
#[verifier::external_body]
pub struct ExPixmap(tiny_skia::Pixmap);

/// Width and height of a pixmap, in pixels: what `Pixmap::width` and
/// `Pixmap::height` return.
pub uninterp spec fn pixmap_size(pixmap: tiny_skia::Pixmap) -> (u32, u32);

/// The bytes of a pixmap, row by row: what `Pixmap::data` returns.
pub uninterp spec fn pixmap_bytes(pixmap: tiny_skia::Pixmap) -> Seq<u8>;

/// The PNG file that `Pixmap::encode_png` makes of a pixmap with the given
/// bytes, width and height, or `None` where it fails. The encoder reads
/// nothing but these.
pub uninterp spec fn pixmap_png(bytes: Seq<u8>, width: u32, height: u32) -> Option<Seq<u8>>;

/// Calls `tiny_skia::Pixmap::new`. On a size that fits, it returns a pixmap of
/// that size with four zero bytes for each pixel: the source refuses only a
/// side of zero, a width above a quarter of `i32::MAX`, and a length in bytes
/// that overflows `usize`, and fills what it allocates with zeros. The buffer
/// is the allocator's to give: where memory runs out, the process ends, as it
/// does for any `Vec`.
#[verifier::external_body]
pub(crate) fn pixmap_new(width: u32, height: u32) -> (pixmap: Option<tiny_skia::Pixmap>)
    requires
        target_fits(width, height),
    ensures
        pixmap is Some,
        pixmap_size(pixmap.unwrap()) == (width, height),
        pixmap_bytes(pixmap.unwrap()).len() == buffer_bytes(width, height),
        forall|i: int|
            0 <= i < buffer_bytes(width, height) ==> #[trigger] pixmap_bytes(pixmap.unwrap())[i]
                == 0u8,
{
    tiny_skia::Pixmap::new(width, height)
}

/// Calls `tiny_skia::Pixmap::encode_png`, which writes the pixmap as a PNG
/// file of eight-bit RGBA, with the colours divided by their alpha again. The
/// result is [`pixmap_png`] of the pixmap's bytes and size; an error of the
/// encoder is `None`.
#[verifier::external_body]
pub(crate) fn encode_pixmap(pixmap: &tiny_skia::Pixmap) -> (png: Option<Vec<u8>>)
    ensures
        match png {
            Some(file) => pixmap_png(
                pixmap_bytes(*pixmap),
                pixmap_size(*pixmap).0,
                pixmap_size(*pixmap).1,
            ) == Some(file@),
            None => pixmap_png(
                pixmap_bytes(*pixmap),
                pixmap_size(*pixmap).0,
                pixmap_size(*pixmap).1,
            ) is None,
        },
{
    pixmap.encode_png().ok()
}

} // verus!
