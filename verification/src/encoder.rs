//! The uniform encoder interface: one closed set of symbol generators,
//! dispatched through a single tagged type, so heterogeneous symbologies are
//! invoked interchangeably.

use vstd::prelude::*;

use crate::barcode::{linear_bits, linear_raster, spec_xdim, BarCode};
use crate::errors::{EncodeError, PayloadViolation, Symbology};
use crate::pixel::{PixelBuffer, PixelFormat};
use crate::qrcode::{qr_symbol, QRCode};
use crate::repertoire::{payload_admissible, spec_payload_violation};

verus! {

/// Raster container formats recognized in configuration. Only PNG has
/// defined output behaviour; the others are refused as unsupported.
#[derive(Clone, Copy, Debug, PartialEq, Eq, Structural)]
pub enum ImageTarget {
    Png,
    Jpeg,
    Gif,
}

/// Output configuration of one request: the container format and whether a
/// caption strip is appended beneath the symbol.
#[derive(Clone, Copy, Debug, PartialEq, Eq, Structural)]
pub struct OutputParams {
    pub format: ImageTarget,
    pub append_text: bool,
}

/// A symbol encoder: one of the implemented symbology generators, carrying
/// its payload and requested render size.
#[derive(Debug)]
pub enum SymbolEncoder {
    Bar(BarCode),
    Qr(QRCode),
}

impl SymbolEncoder {
    /// A barcode variant never carries the QR symbology tag; that one is
    /// owned by the QR variant.
    pub open spec fn wf(self) -> bool {
        match self {
            SymbolEncoder::Bar(b) => b.symbology != Symbology::Qr,
            SymbolEncoder::Qr(_) => true,
        }
    }

    /// The symbology this encoder generates.
    pub open spec fn spec_symbology(self) -> Symbology {
        match self {
            SymbolEncoder::Bar(b) => b.symbology,
            SymbolEncoder::Qr(_) => Symbology::Qr,
        }
    }

    /// The payload this encoder encodes.
    pub open spec fn spec_payload(self) -> Seq<char> {
        match self {
            SymbolEncoder::Bar(b) => b.payload@,
            SymbolEncoder::Qr(q) => q.payload@,
        }
    }

    /// The requested render height.
    pub open spec fn spec_height(self) -> u32 {
        match self {
            SymbolEncoder::Bar(b) => b.height,
            SymbolEncoder::Qr(q) => q.height,
        }
    }

    /// Whether this encoder succeeds: the payload passes the symbology's
    /// up-front validation, and for QR the generator additionally accepts it
    /// as within capacity.
    pub open spec fn admissible(self) -> bool {
        match self {
            SymbolEncoder::Bar(b) => payload_admissible(b.symbology, b.payload@),
            SymbolEncoder::Qr(q) => q.payload@.len() >= 1 && qr_symbol(q.payload@, q.height)
                is Some,
        }
    }

    /// The raster model `encode` returns on an admissible payload:
    /// width, height, pixel format and pixel bytes, a function of payload
    /// and size alone.
    pub open spec fn spec_raster(self) -> (nat, nat, PixelFormat, Seq<u8>) {
        match self {
            SymbolEncoder::Bar(b) => {
                let bits = linear_bits(b.symbology, b.payload@);
                let xdim = spec_xdim(b.height);
                (
                    (bits.len() * xdim) as nat,
                    b.height as nat,
                    PixelFormat::Rgba,
                    linear_raster(bits, xdim as nat, b.height as nat),
                )
            },
            SymbolEncoder::Qr(q) => match qr_symbol(q.payload@, q.height) {
                Some(v) => (v.0, v.0, PixelFormat::Gray, v.2),
                None => (0, 0, PixelFormat::Gray, Seq::empty()),
            },
        }
    }

    /// The error `encode` returns on an inadmissible payload.
    pub open spec fn spec_error(self) -> EncodeError {
        match self {
            SymbolEncoder::Bar(b) => EncodeError::UnsupportedPayload {
                symbology: b.symbology,
                reason: spec_payload_violation(b.symbology, b.payload@),
            },
            SymbolEncoder::Qr(q) => if q.payload@.len() == 0 {
                EncodeError::UnsupportedPayload {
                    symbology: Symbology::Qr,
                    reason: PayloadViolation::Empty,
                }
            } else {
                EncodeError::SymbologyFailure { symbology: Symbology::Qr }
            },
        }
    }

    /// The payload this encoder encodes.
    pub fn payload(&self) -> (r: &str)
        ensures
            r@ == self.spec_payload(),
    {
        match self {
            SymbolEncoder::Bar(b) => b.payload(),
            SymbolEncoder::Qr(q) => q.payload(),
        }
    }

    /// The output configuration this encoder asks for: PNG, with no caption
    /// appended. Captions are opt-in per request — the encoder alone has no
    /// glyph source, so the flag turns on exactly when the caller supplies a
    /// rendered strip to the pipeline.
    pub fn get_params(&self) -> (r: OutputParams)
        ensures
            r == (OutputParams { format: ImageTarget::Png, append_text: false }),
    {
        OutputParams { format: ImageTarget::Png, append_text: false }
    }

    /// Encodes the payload into a raster of the requested size.
    ///
    /// Succeeds exactly on admissible inputs — for the linear symbologies a
    /// validated payload, for QR a non-empty payload the generator accepts —
    /// and the result is a function of payload and size alone, so two calls
    /// on equal inputs return identical pixels. Linear barcodes keep exactly
    /// the requested height; QR symbols are square with a side at least the
    /// requested height.
    pub fn encode(&self) -> (r: Result<PixelBuffer, EncodeError>)
        requires
            self.wf(),
            1 <= self.spec_height() <= 10000,
        ensures
            r is Ok <==> self.admissible(),
            r matches Err(e) ==> e == self.spec_error(),
            r matches Ok(b) ==> {
                &&& b.wf()
                &&& (b.width as nat, b.height as nat, b.format, b.data@) == self.spec_raster()
                &&& 1 <= b.width <= 20000
                &&& 1 <= b.height <= 20000
                &&& (self is Bar ==> b.height == self.spec_height())
                &&& (self is Qr ==> b.width == b.height && b.width >= self.spec_height())
                &&& (self is Qr ==> forall|i: int|
                    0 <= i < b.data@.len() ==> b.data@[i] == 0 || b.data@[i] == 255)
            },
    {
        match self {
            SymbolEncoder::Bar(b) => b.encode(),
            SymbolEncoder::Qr(q) => q.encode(),
        }
    }
}

impl BarCode {
    /// The output configuration this encoder asks for: PNG, no caption (see
    /// `SymbolEncoder::get_params`).
    pub fn get_params(&self) -> (r: OutputParams)
        ensures
            r == (OutputParams { format: ImageTarget::Png, append_text: false }),
    {
        OutputParams { format: ImageTarget::Png, append_text: false }
    }
}

impl QRCode {
    /// The output configuration this encoder asks for: PNG, no caption (see
    /// `SymbolEncoder::get_params`).
    pub fn get_params(&self) -> (r: OutputParams)
        ensures
            r == (OutputParams { format: ImageTarget::Png, append_text: false }),
    {
        OutputParams { format: ImageTarget::Png, append_text: false }
    }
}

} // verus!
