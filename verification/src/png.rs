//! PNG containment: serializing a raster to bytes and reading it back.
//!
//! The writer cannot refuse a well-formed raster, so serialization is owed
//! to succeed; PNG is lossless, which is stated once, at the decoding
//! wrapper, and from there [`png_round_trip`] proves that a serialized
//! raster decodes back to identical dimensions, format and pixel values.

use vstd::prelude::*;

use crate::errors::EncodeError;
use crate::pixel::{PixelBuffer, PixelFormat};

use image::DynamicImage;

verus! {

/// The PNG byte stream the encoder writes for a raster of `channels` bytes
/// per pixel (1 grayscale, 4 RGBA) and the given dimensions and pixel bytes.
pub uninterp spec fn png_bytes(channels: nat, width: nat, height: nat, data: Seq<u8>) -> Seq<u8>;

/// The eight bytes every PNG stream opens with.
pub open spec fn png_signature() -> Seq<u8> {
    seq![137u8, 80u8, 78u8, 71u8, 13u8, 10u8, 26u8, 10u8]
}

/// Relies on image's PNG encoder via `DynamicImage::write_to`: the byte
/// stream written for a well-formed grayscale or RGBA raster is a function
/// of the raster alone and opens with the PNG signature. The call cannot
/// fail: the buffer length matches the dimensions, writing to an in-memory
/// cursor cannot fail, and the encoder accepts 8-bit grayscale and RGBA at
/// every admitted dimension, so the unwraps never fire.
#[verifier::external_body]
fn write_png(buf: &PixelBuffer) -> (r: Vec<u8>)
    requires
        buf.wf(),
        1 <= buf.width <= 100000,
        1 <= buf.height <= 100000,
    ensures
        r@ == png_bytes(buf.format.spec_channels(), buf.width as nat, buf.height as nat, buf.data@),
        r@.len() >= 8,
        r@.subrange(0, 8) == png_signature(),
{
    let img = match buf.format {
        PixelFormat::Gray => image::GrayImage::from_raw(buf.width, buf.height, buf.data.clone())
            .map(DynamicImage::ImageLuma8),
        PixelFormat::Rgba => image::RgbaImage::from_raw(buf.width, buf.height, buf.data.clone())
            .map(DynamicImage::ImageRgba8),
    }.unwrap();
    let mut out = std::io::Cursor::new(Vec::new());
    img.write_to(&mut out, image::ImageFormat::Png).unwrap();
    out.into_inner()
}

/// A decoding result faithful to `bytes`: whenever the bytes are the PNG
/// encoding of a well-formed grayscale or RGBA raster, the result is that
/// raster, with its dimensions, format and pixel values intact.
pub open spec fn decodes_losslessly(bytes: Seq<u8>, r: Option<PixelBuffer>) -> bool {
    forall|c: nat, w: nat, h: nat, d: Seq<u8>|
        (bytes == #[trigger] png_bytes(c, w, h, d) && (c == 1 || c == 4) && 1 <= w <= 100000 && 1
            <= h <= 100000 && d.len() == w * h * c) ==> (r matches Some(b) && b.width == w
            && b.height == h && b.format.spec_channels() == c && b.data@ == d)
}

/// Relies on image's `ImageReader` and the losslessness of PNG: bytes the
/// PNG encoder wrote for a well-formed grayscale or RGBA raster decode back
/// to exactly that raster. The reader's default allocation limits are
/// lifted, so no stream the encoder writes is beyond the decoder's reach.
#[verifier::external_body]
fn read_png(bytes: &Vec<u8>) -> (r: Option<PixelBuffer>)
    ensures
        r matches Some(b) ==> b.wf(),
        decodes_losslessly(bytes@, r),
{
    let mut reader = image::ImageReader::new(std::io::Cursor::new(bytes.as_slice()));
    reader.no_limits();
    let decoded = reader.with_guessed_format().ok()?.decode().ok()?;
    match decoded {
        DynamicImage::ImageLuma8(i) => {
            let (w, h) = i.dimensions();
            Some(PixelBuffer { width: w, height: h, format: PixelFormat::Gray, data: i.into_raw() })
        },
        DynamicImage::ImageRgba8(i) => {
            let (w, h) = i.dimensions();
            Some(PixelBuffer { width: w, height: h, format: PixelFormat::Rgba, data: i.into_raw() })
        },
        _ => None,
    }
}

/// Serializes a raster to a PNG byte stream. Success is owed — the writer
/// cannot refuse a well-formed raster — and the bytes are the PNG encoding
/// of exactly this raster, opening with the PNG signature.
pub fn to_png(buf: &PixelBuffer) -> (r: Result<Vec<u8>, EncodeError>)
    requires
        buf.wf(),
        1 <= buf.width <= 100000,
        1 <= buf.height <= 100000,
    ensures
        r matches Ok(bytes) && bytes@ == png_bytes(
            buf.format.spec_channels(),
            buf.width as nat,
            buf.height as nat,
            buf.data@,
        ) && bytes@.len() >= 8 && bytes@.subrange(0, 8) == png_signature(),
{
    Ok(write_png(buf))
}

/// Decodes a PNG byte stream into a raster, `None` for anything the reader
/// refuses. Bytes that `to_png` produced decode back to the serialized
/// raster.
pub fn from_png(bytes: &Vec<u8>) -> (r: Option<PixelBuffer>)
    ensures
        r matches Some(b) ==> b.wf(),
        decodes_losslessly(bytes@, r),
{
    read_png(bytes)
}

/// PNG containment is lossless: serializing a raster and decoding the bytes
/// back always succeeds and reproduces identical dimensions, pixel format
/// and pixel values.
pub fn png_round_trip(buf: &PixelBuffer) -> (r: Result<PixelBuffer, EncodeError>)
    requires
        buf.wf(),
        1 <= buf.width <= 100000,
        1 <= buf.height <= 100000,
    ensures
        r matches Ok(b) && b.width == buf.width && b.height == buf.height && b.format == buf.format
            && b.data@ == buf.data@,
{
    let bytes = match to_png(buf) {
        Ok(bytes) => bytes,
        Err(e) => {
            return Err(e);
        },
    };
    proof {
        assert(buf.format.spec_channels() == 1 || buf.format.spec_channels() == 4) by {
            match buf.format {
                PixelFormat::Gray => {},
                PixelFormat::Rgba => {},
            }
        }
    }
    match from_png(&bytes) {
        Some(b) => {
            proof {
                assert(b.format.spec_channels() == buf.format.spec_channels());
                assert(b.format == buf.format) by {
                    match (b.format, buf.format) {
                        (PixelFormat::Gray, PixelFormat::Gray) => {},
                        (PixelFormat::Rgba, PixelFormat::Rgba) => {},
                        _ => {},
                    }
                }
            }
            Ok(b)
        },
        None => {
            proof {
                assert(false);
            }
            Err(EncodeError::SerializationFailure)
        },
    }
}

} // verus!
