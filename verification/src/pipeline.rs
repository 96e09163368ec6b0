//! The output pipeline: encode the symbol, optionally grow it by a caption
//! strip, serialize the raster into a PNG container.
//!
//! Every step is deterministic and pure given its inputs, so a failure is
//! propagated at once — a retry would only reproduce it.

use vstd::prelude::*;

use crate::encoder::{ImageTarget, OutputParams, SymbolEncoder};
use crate::errors::EncodeError;
use crate::overlay::{compose_caption, composed_data, composed_width};
use crate::pixel::{PixelBuffer, PixelFormat};
use crate::png::{png_bytes, png_signature, to_png};

verus! {

/// A finished image: container bytes and their declared MIME type.
#[derive(Debug)]
pub struct EncodedImage {
    pub bytes: Vec<u8>,
    pub mime: String,
}

/// The raster the pipeline serializes — width, height, format, pixel bytes:
/// the encoder's raster, grown beneath by the caption strip when one is
/// appended.
pub open spec fn spec_composite(
    e: SymbolEncoder,
    caption: Option<&PixelBuffer>,
    append: bool,
) -> (nat, nat, PixelFormat, Seq<u8>) {
    let (w, h, fmt, data) = e.spec_raster();
    match caption {
        Some(c) => if append {
            (
                composed_width(w as int, c.width as int) as nat,
                (h + c.height) as nat,
                fmt,
                composed_data(
                    w as int,
                    h as int,
                    fmt,
                    data,
                    c.width as int,
                    c.height as int,
                    c.data@,
                ),
            )
        } else {
            (w, h, fmt, data)
        },
        None => (w, h, fmt, data),
    }
}

/// Runs the pipeline. Only PNG output is defined; the other recognized
/// formats are refused as unsupported. An encoder failure propagates
/// unchanged; an admissible payload bound for PNG is owed a success, whose
/// bytes are the PNG encoding of exactly the composite model, declared
/// `image/png`.
pub fn run(encoder: &SymbolEncoder, params: &OutputParams, caption: Option<&PixelBuffer>) -> (r:
    Result<EncodedImage, EncodeError>)
    requires
        encoder.wf(),
        1 <= encoder.spec_height() <= 10000,
        caption matches Some(c) ==> c.wf() && c.format == PixelFormat::Gray && c.width <= 20000
            && c.height <= 2000,
    ensures
        !encoder.admissible() ==> r == Err::<EncodedImage, EncodeError>(encoder.spec_error()),
        encoder.admissible() && params.format != ImageTarget::Png ==> r == Err::<
            EncodedImage,
            EncodeError,
        >(EncodeError::UnsupportedFormat),
        encoder.admissible() && params.format == ImageTarget::Png ==> (r matches Ok(img) && {
            let m = spec_composite(*encoder, caption, params.append_text);
            img.mime@ == "image/png"@ && img.bytes@.len() >= 8 && img.bytes@ == png_bytes(
                m.2.spec_channels(),
                m.0,
                m.1,
                m.3,
            ) && img.bytes@.subrange(0, 8) == png_signature()
        }),
{
    let buf = match encoder.encode() {
        Ok(b) => b,
        Err(e) => {
            return Err(e);
        },
    };
    let out = if params.append_text {
        match caption {
            Some(c) => compose_caption(&buf, c),
            None => buf,
        }
    } else {
        buf
    };
    match params.format {
        ImageTarget::Png => {},
        _ => {
            return Err(EncodeError::UnsupportedFormat);
        },
    }
    match to_png(&out) {
        Ok(bytes) => Ok(EncodedImage { bytes, mime: String::from_str("image/png") }),
        Err(e) => Err(e),
    }
}

impl SymbolEncoder {
    /// Encodes and serializes under this encoder's own output configuration
    /// (PNG; the caption step is skipped as no strip is supplied). An
    /// admissible payload is owed a success: the PNG bytes of exactly this
    /// encoder's raster, opening with the PNG signature.
    pub fn output(&self) -> (r: Result<Vec<u8>, EncodeError>)
        requires
            self.wf(),
            1 <= self.spec_height() <= 10000,
        ensures
            !self.admissible() ==> r == Err::<Vec<u8>, EncodeError>(self.spec_error()),
            self.admissible() ==> (r matches Ok(bytes) && {
                let m = self.spec_raster();
                bytes@ == png_bytes(m.2.spec_channels(), m.0, m.1, m.3) && bytes@.len() >= 8
                    && bytes@.subrange(0, 8) == png_signature()
            }),
    {
        let params = self.get_params();
        match run(self, &params, None) {
            Ok(img) => Ok(img.bytes),
            Err(e) => Err(e),
        }
    }
}

} // verus!
