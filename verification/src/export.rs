//! Turning a readback into the bytes of an image file. The format follows
//! from the file's name; the encoding is done by the `image` crate.

use vstd::prelude::*;
use crate::readback::readback_len;

verus! {

/// Why a readback could not be exported.
#[derive(Clone, Copy, Debug, PartialEq, Eq, Structural)]
pub enum ExportError {
    /// The readback holds fewer bytes than the image has.
    BufferTooSmall,
    /// The file's name asks for a format that is not PNG.
    UnsupportedFormat,
    /// The encoder refused the image.
    EncodingFailed,
}

/// Whether the `image` crate takes the extension of `path` to mean PNG.
pub uninterp spec fn names_png(path: Seq<char>) -> bool;

/// The PNG stream that the `image` crate writes for an image of the given
/// size whose pixels are the first bytes of `pixels`, four per pixel, or
/// `None` where its encoder reports an error.
pub uninterp spec fn png_stream(pixels: Seq<u8>, width: u32, height: u32) -> Option<Seq<u8>>;

/// Calls `image::ImageFormat::from_path` and says whether it names PNG.
/// Nothing is claimed but that the answer depends on the path alone.
#[verifier::external_body]
fn path_names_png(path: &str) -> (png: bool)
    ensures
        png == names_png(path@),
{
    match image::ImageFormat::from_path(path) {
        Ok(image::ImageFormat::Png) => true,
        Ok(_) => false,
        Err(_) => false,
    }
}

/// Calls `image::ImageBuffer::from_raw` on the bytes, as RGBA pixels of 8
/// bits per channel, and `image::ImageBuffer::write_to` with the PNG format
/// into memory. The stream is claimed to depend on pixels and size alone,
/// and the encoder is known to refuse an image without width or height.
/// `from_raw` turns down a buffer that is too small; such a one is left
/// out here.
#[verifier::external_body]
fn encode_png(pixels: &[u8], width: u32, height: u32) -> (stream: Option<Vec<u8>>)
    requires
        readback_len(width, height) <= pixels@.len(),
    ensures
        match stream {
            Some(bytes) => png_stream(pixels@, width, height) == Some(bytes@),
            None => png_stream(pixels@, width, height) is None,
        },
        width == 0 || height == 0 ==> stream is None,
{
    let picture = image::ImageBuffer::<image::Rgba<u8>, _>::from_raw(width, height, pixels)?;
    let mut file = std::io::Cursor::new(Vec::new());
    picture.write_to(&mut file, image::ImageFormat::Png).ok()?;
    Some(file.into_inner())
}

/// Whether a readback of `len` bytes holds an image of the given size.
pub fn holds_image(len: usize, width: u32, height: u32) -> (enough: bool)
    ensures
        enough == (readback_len(width, height) <= len),
{
    assert(0 <= width * height <= 0xFFFF_FFFF * 0xFFFF_FFFF) by (nonlinear_arith)
        requires
            0 <= width <= 0xFFFF_FFFF,
            0 <= height <= 0xFFFF_FFFF,
    ;
    let pixels: u64 = (width as u64) * (height as u64);
    assert(readback_len(width, height) == 4 * pixels) by (nonlinear_arith)
        requires
            pixels == width * height,
            readback_len(width, height) == 4 * width * height,
    ;
    pixels <= (len / 4) as u64
}

/// What the export hands back once the encoder has answered: the stream
/// if there is one, else the encoder's refusal.
pub fn delivered(stream: Option<Vec<u8>>) -> (file: Result<Vec<u8>, ExportError>)
    ensures
        match stream {
            Some(bytes) => file == Ok::<Vec<u8>, ExportError>(bytes),
            None => file == Err::<Vec<u8>, ExportError>(ExportError::EncodingFailed),
        },
{
    match stream {
        Some(bytes) => Ok(bytes),
        None => Err(ExportError::EncodingFailed),
    }
}

/// What `export` returns, given what the outside crate says of the path and
/// of the pixels.
pub open spec fn export_spec(
    pixels: Seq<u8>,
    width: u32,
    height: u32,
    path: Seq<char>,
) -> Result<Seq<u8>, ExportError> {
    if pixels.len() < readback_len(width, height) {
        Err(ExportError::BufferTooSmall)
    } else if !names_png(path) {
        Err(ExportError::UnsupportedFormat)
    } else {
        match png_stream(pixels, width, height) {
            Some(bytes) => Ok(bytes),
            None => Err(ExportError::EncodingFailed),
        }
    }
}

/// The content of the image file named `path` for a readback of an image
/// of the given size. The readback must hold the whole image and the name
/// must ask for PNG; an image without width or height is always refused.
pub fn export(pixels: &[u8], width: u32, height: u32, path: &str) -> (file: Result<
    Vec<u8>,
    ExportError,
>)
    ensures
        match file {
            Ok(bytes) => export_spec(pixels@, width, height, path@) == Ok::<
                Seq<u8>,
                ExportError,
            >(bytes@),
            Err(error) => export_spec(pixels@, width, height, path@) == Err::<
                Seq<u8>,
                ExportError,
            >(error),
        },
        file == Err::<Vec<u8>, ExportError>(ExportError::BufferTooSmall) <==> pixels@.len()
            < readback_len(width, height),
        (width == 0 || height == 0) ==> file is Err,
{
    if !holds_image(pixels.len(), width, height) {
        return Err(ExportError::BufferTooSmall);
    }
    if !path_names_png(path) {
        return Err(ExportError::UnsupportedFormat);
    }
    delivered(encode_png(pixels, width, height))
}

} // verus!
