//! The codec of the bitmap container: the `image` crate's PNG reader and
//! writer, as far as the transformer and the saver need them.
//!
//! Nothing in this file is proved. Each item says what it takes on trust from
//! the code that it calls.

use vstd::prelude::*;
use crate::pixmap::pixmap_png;
use crate::raster::DecodedImage;
use crate::scale::buffer_bytes;

verus! {

/// The picture that the `image` crate reads from a PNG file, as eight-bit RGBA:
/// its bytes, its width and its height, or `None` where it refuses the file.
/// The reader is given the format and no limits, and reads nothing but the
/// bytes of the file.
pub uninterp spec fn decoded_png(file: Seq<u8>) -> Option<(Seq<u8>, u32, u32)>;

/// The PNG file that the `image` crate writes for eight-bit RGBA pixels of the
/// given width and height, or `None` where it fails. The writer reads nothing
/// but these.
pub uninterp spec fn encoded_png(pixels: Seq<u8>, width: u32, height: u32) -> Option<Seq<u8>>;

/// Calls `image::ImageReader::decode` on a reader that is set to PNG and to no
/// limits, and hands out the picture as eight-bit RGBA. The result is
/// [`decoded_png`] of the file; an error of the reader is `None`. With no
/// limits the reader allocates whatever a file asks for, so it is given none
/// but files that the pixmap's encoder has written, of pictures that are in
/// memory already.
#[verifier::external_body]
pub(crate) fn decode_png(file: &[u8]) -> (picture: Option<DecodedImage>)
    requires
        exists|bytes: Seq<u8>, width: u32, height: u32|
            #[trigger] pixmap_png(bytes, width, height) == Some(file@),
    ensures
        match picture {
            Some(decoded) => decoded_png(file@) == Some(
                (decoded.pixels@, decoded.width, decoded.height),
            ),
            None => decoded_png(file@) is None,
        },
{
    let mut reader = image::ImageReader::new(std::io::Cursor::new(file));
    reader.set_format(image::ImageFormat::Png);
    reader.no_limits();
    let rgba = reader.decode().ok()?.into_rgba8();
    let (width, height) = rgba.dimensions();
    Some(DecodedImage { pixels: rgba.into_raw(), width, height })
}

/// Calls `image::write_buffer_with_format` for eight-bit RGBA and PNG, on a
/// buffer in memory. The writer panics unless there are four bytes for each
/// pixel: hence the demand. The result is [`encoded_png`] of the pixels and
/// the size; an error of the writer is `None`.
#[verifier::external_body]
pub(crate) fn encode_png(pixels: &[u8], width: u32, height: u32) -> (file: Option<Vec<u8>>)
    requires
        pixels@.len() == buffer_bytes(width, height),
    ensures
        match file {
            Some(bytes) => encoded_png(pixels@, width, height) == Some(bytes@),
            None => encoded_png(pixels@, width, height) is None,
        },
{
    let mut buffer = std::io::Cursor::new(Vec::new());
    image::write_buffer_with_format(
        &mut buffer,
        pixels,
        width,
        height,
        image::ExtendedColorType::Rgba8,
        image::ImageFormat::Png,
    ).ok()?;
    Some(buffer.into_inner())
}

} // verus!
