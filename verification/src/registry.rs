//! The encoder registry: the single place where a requested encoding
//! identifier is turned into a symbol encoder, with all inputs validated.
//!
//! Identifiers that are recognized but unimplemented resolve to a typed
//! `NotSupported` failure — construction never aborts the process.

use vstd::prelude::*;

use crate::barcode::BarCode;
use crate::encoder::SymbolEncoder;
use crate::errors::{EncodeError, Encoding, ParamName, ParamViolation, Symbology};
use crate::qrcode::QRCode;

verus! {

/// The largest render height the service accepts; anything above is
/// rejected rather than allocated.
pub const MAX_HEIGHT: u32 = 10000;

/// Path segment of a request: which encoding is asked for.
#[derive(Debug)]
pub struct Info {
    pub encoding: Encoding,
}

/// Query parameters of a request: the payload and the requested height.
#[derive(Debug)]
pub struct Params {
    pub payload: String,
    pub height: u32,
}

/// The render height used when a request names none.
pub fn default_height() -> (r: u32)
    ensures
        r == 300,
{
    300
}

/// Parses the external spelling of an encoding identifier, case-sensitively.
pub fn parse_encoding(s: &str) -> (r: Option<Encoding>)
    ensures
        r matches Some(k) ==> s@ == k.spec_name(),
        r is None ==> s@ != Encoding::BarCode.spec_name() && s@ != Encoding::QRCode.spec_name()
            && s@ != Encoding::Aztec.spec_name() && s@ != Encoding::PDF417.spec_name(),
{
    let v = s.to_owned();
    if v == String::from_str("BarCode") {
        Some(Encoding::BarCode)
    } else if v == String::from_str("QRCode") {
        Some(Encoding::QRCode)
    } else if v == String::from_str("Aztec") {
        Some(Encoding::Aztec)
    } else if v == String::from_str("PDF417") {
        Some(Encoding::PDF417)
    } else {
        None
    }
}

/// The failure `resolve` reports, checked in this order: an unimplemented
/// encoding, a zero height, an oversized height, an empty payload.
pub open spec fn spec_resolve_err(kind: Encoding, payload: Seq<char>, height: u32) -> Option<
    EncodeError,
> {
    if kind == Encoding::Aztec || kind == Encoding::PDF417 {
        Some(EncodeError::NotSupported { kind })
    } else if height == 0 {
        Some(
            EncodeError::InvalidParameter {
                name: ParamName::Height,
                reason: ParamViolation::NonPositive,
            },
        )
    } else if height > MAX_HEIGHT {
        Some(
            EncodeError::InvalidParameter {
                name: ParamName::Height,
                reason: ParamViolation::TooLarge,
            },
        )
    } else if payload.len() == 0 {
        Some(
            EncodeError::InvalidParameter { name: ParamName::Payload, reason: ParamViolation::Empty },
        )
    } else {
        None
    }
}

/// Resolves a requested encoding to its symbol encoder, with validated
/// inputs. The implemented identifiers construct an encoder — `BarCode` the
/// default Code128 generator, `QRCode` the QR generator; the recognized but
/// unimplemented `Aztec` and `PDF417` always yield `NotSupported`, and bad
/// parameters a typed `InvalidParameter`, exactly as `spec_resolve_err`
/// orders them.
pub fn resolve(kind: Encoding, payload: String, height: u32) -> (r: Result<
    SymbolEncoder,
    EncodeError,
>)
    ensures
        r is Ok <==> spec_resolve_err(kind, payload@, height) is None,
        r matches Err(e) ==> Some(e) == spec_resolve_err(kind, payload@, height),
        kind == Encoding::Aztec || kind == Encoding::PDF417 ==> r == Err::<
            SymbolEncoder,
            EncodeError,
        >(EncodeError::NotSupported { kind }),
        r matches Ok(enc) ==> {
            &&& enc.wf()
            &&& enc.spec_payload() == payload@
            &&& enc.spec_height() == height
            &&& 1 <= height <= MAX_HEIGHT
            &&& payload@.len() >= 1
            &&& (kind == Encoding::BarCode ==> enc.spec_symbology() == Symbology::Code128)
            &&& (kind == Encoding::QRCode ==> enc.spec_symbology() == Symbology::Qr)
        },
{
    match kind {
        Encoding::Aztec | Encoding::PDF417 => Err(EncodeError::NotSupported { kind }),
        _ => {
            if height == 0 {
                Err(
                    EncodeError::InvalidParameter {
                        name: ParamName::Height,
                        reason: ParamViolation::NonPositive,
                    },
                )
            } else if height > MAX_HEIGHT {
                Err(
                    EncodeError::InvalidParameter {
                        name: ParamName::Height,
                        reason: ParamViolation::TooLarge,
                    },
                )
            } else if payload.as_str().unicode_len() == 0 {
                Err(
                    EncodeError::InvalidParameter {
                        name: ParamName::Payload,
                        reason: ParamViolation::Empty,
                    },
                )
            } else {
                match kind {
                    Encoding::BarCode => Ok(SymbolEncoder::Bar(BarCode::new(payload, height))),
                    _ => Ok(SymbolEncoder::Qr(QRCode::new(payload, height))),
                }
            }
        },
    }
}

} // verus!
