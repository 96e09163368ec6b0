//! QR code encoding.
//!
//! The QR symbology admits every character; only emptiness and the
//! generator's capacity bound a payload, and the capacity decision is the
//! generator's own — its refusal comes back as a typed failure, never a
//! fault. The rendered symbol is a square grayscale raster whose side is the
//! smallest multiple of the module count (quiet zone included) that reaches
//! the requested size, framed by a white four-module quiet zone.

use vstd::prelude::*;

use crate::errors::{EncodeError, PayloadViolation, Symbology};
use crate::pixel::{PixelBuffer, PixelFormat};
use crate::repertoire::validate_payload;

use image::Luma;
use qrcode::QrCode;

verus! {

/// The outcome of rendering a QR symbol for a payload and a requested size:
/// `None` when the payload exceeds the generator's capacity, otherwise the
/// side length, the module count per side (quiet zone not included) and the
/// pixel bytes of the square raster.
pub uninterp spec fn qr_symbol(s: Seq<char>, size: u32) -> Option<(nat, nat, Seq<u8>)>;

/// A white frame: every pixel within `margin` of any border of a
/// `side`×`side` raster is 255.
pub open spec fn white_framed(side: int, margin: int, data: Seq<u8>) -> bool {
    forall|x: int, y: int|
        0 <= x < side && 0 <= y < side && (x < margin || y < margin || x >= side - margin || y
            >= side - margin) ==> #[trigger] data[y * side + x] == 255
}

/// Relies on qrcode's `QrCode::new` (error-correction level M) and its image
/// renderer. Whether a payload fits the capacity is the generator's own
/// decision — its segment optimizer is greedy, so no simple size bound is
/// faithful — and a refusal is returned as an error, never a panic. On
/// success the module count per side is between 21 and 177, and the
/// renderer, asked for minimum dimensions `size`×`size` with the quiet zone
/// kept, returns a square grayscale image whose side is the smallest
/// multiple of the module-plus-quiet-zone count (at least 29, at most 185)
/// that reaches `size`, holding only black (0) and white (255) bytes, with
/// the four-module quiet zone white on all four borders.
#[verifier::external_body]
fn qr_generate_raster(payload: &str, size: u32) -> (r: Result<(u32, u32, Vec<u8>), ()>)
    requires
        1 <= payload@.len(),
        1 <= size <= 10000,
    ensures
        r is Ok <==> qr_symbol(payload@, size) is Some,
        r matches Ok(v) ==> {
            &&& qr_symbol(payload@, size) == Some((v.0 as nat, v.1 as nat, v.2@))
            &&& size <= v.0 < size + 185
            &&& 29 <= v.0
            &&& 21 <= v.1 <= 177
            &&& (v.0 as int) % ((v.1 + 8) as int) == 0
            &&& v.2@.len() == v.0 * v.0
            &&& (forall|i: int| 0 <= i < v.2@.len() ==> v.2@[i] == 0 || v.2@[i] == 255)
            &&& white_framed(v.0 as int, 4 * ((v.0 as int) / ((v.1 + 8) as int)), v.2@)
        },
{
    let code = match QrCode::new(payload.as_bytes()) {
        Ok(code) => code,
        Err(_) => return Err(()),
    };
    let modules = code.width() as u32;
    let mut renderer = code.render::<Luma<u8>>();
    renderer.min_dimensions(size, size).quiet_zone(true);
    let img = renderer.build();
    let side = img.width();
    Ok((side, modules, img.into_raw()))
}

/// A QR code request: a payload and a requested render size.
#[derive(Debug)]
pub struct QRCode {
    pub payload: String,
    pub height: u32,
}

impl QRCode {
    /// A QR code of the given payload and size.
    pub fn new(payload: String, height: u32) -> (r: QRCode)
        ensures
            r.payload@ == payload@,
            r.height == height,
    {
        QRCode { payload, height }
    }

    /// The payload this code encodes.
    pub fn payload(&self) -> (r: &str)
        ensures
            r@ == self.payload@,
    {
        self.payload.as_str()
    }

    /// Encodes the payload as a square grayscale raster whose side reaches
    /// the requested height, black modules on white, framed by the white
    /// quiet zone. Succeeds exactly when the payload is non-empty and the
    /// generator accepts it; an empty payload is an `UnsupportedPayload`,
    /// one the generator refuses as beyond its capacity a
    /// `SymbologyFailure` of this symbology.
    pub fn encode(&self) -> (r: Result<PixelBuffer, EncodeError>)
        requires
            1 <= self.height <= 10000,
        ensures
            r is Ok <==> self.payload@.len() >= 1 && qr_symbol(self.payload@, self.height) is Some,
            r matches Err(e) ==> e == (if self.payload@.len() == 0 {
                EncodeError::UnsupportedPayload {
                    symbology: Symbology::Qr,
                    reason: PayloadViolation::Empty,
                }
            } else {
                EncodeError::SymbologyFailure { symbology: Symbology::Qr }
            }),
            r matches Ok(b) ==> qr_symbol(self.payload@, self.height) matches Some(v) && {
                &&& b.wf()
                &&& b.format == PixelFormat::Gray
                &&& b.width == b.height
                &&& self.height <= b.width
                &&& b.width < self.height + 185
                &&& b.width == v.0 && b.data@ == v.2
                &&& (forall|i: int| 0 <= i < b.data@.len() ==> b.data@[i] == 0 || b.data@[i] == 255)
                &&& white_framed(b.width as int, 4 * ((b.width as int) / ((v.1 + 8) as int)), b.data@)
            },
    {
        if let Some(_violation) = validate_payload(Symbology::Qr, self.payload.as_str()) {
            return Err(
                EncodeError::UnsupportedPayload {
                    symbology: Symbology::Qr,
                    reason: PayloadViolation::Empty,
                },
            );
        }
        match qr_generate_raster(self.payload.as_str(), self.height) {
            Ok((side, modules, data)) => {
                proof {
                    assert(data@.len() == side * side);
                    assert(PixelFormat::Gray.spec_channels() == 1);
                    assert(data@.len() == side * side * PixelFormat::Gray.spec_channels());
                    assert(qr_symbol(self.payload@, self.height) == Some(
                        (side as nat, modules as nat, data@),
                    ));
                }
                Ok(PixelBuffer { width: side, height: side, format: PixelFormat::Gray, data })
            },
            Err(_) => Err(EncodeError::SymbologyFailure { symbology: Symbology::Qr }),
        }
    }
}

} // verus!
