//! Typed failures of the encoding pipeline.
//!
//! Every stage returns one of these kinds; none of them represents a
//! server-side fault, so a transport boundary maps them all to a client
//! error status.

use vstd::prelude::*;

verus! {

/// The symbol languages this crate can generate.
#[derive(Clone, Copy, Debug, PartialEq, Eq, Structural)]
pub enum Symbology {
    Code128,
    Code39,
    Code93,
    Codabar,
    Qr,
}

/// Encoding identifiers a client may request, in their external spelling.
/// `Aztec` and `PDF417` are recognized but have no implementation.
#[derive(Clone, Copy, Debug, PartialEq, Eq, Structural)]
pub enum Encoding {
    BarCode,
    QRCode,
    Aztec,
    PDF417,
}

/// Why a payload was rejected by a symbology.
#[derive(Clone, Copy, Debug, PartialEq, Eq, Structural)]
pub enum PayloadViolation {
    /// The payload has no characters.
    Empty,
    /// The payload exceeds the symbology's length capacity.
    TooLong,
    /// Some character lies outside the symbology's repertoire.
    Charset,
}

/// Which request parameter an [`EncodeError::InvalidParameter`] names.
#[derive(Clone, Copy, Debug, PartialEq, Eq, Structural)]
pub enum ParamName {
    Payload,
    Height,
}

/// Why a request parameter was rejected before any encoder ran.
#[derive(Clone, Copy, Debug, PartialEq, Eq, Structural)]
pub enum ParamViolation {
    /// The parameter has no content (an empty payload).
    Empty,
    /// The parameter must be positive (a zero height).
    NonPositive,
    /// The parameter exceeds the largest value the service accepts.
    TooLarge,
}

/// A typed failure of the encoding pipeline.
#[derive(Clone, Copy, Debug, PartialEq, Eq, Structural)]
pub enum EncodeError {
    /// The requested encoding identifier is recognized but not implemented.
    NotSupported { kind: Encoding },
    /// The payload violates the symbology's character-set or length rules.
    UnsupportedPayload { symbology: Symbology, reason: PayloadViolation },
    /// A request parameter was rejected at the pipeline boundary.
    InvalidParameter { name: ParamName, reason: ParamViolation },
    /// The symbol generator itself refused the payload (a payload beyond the
    /// QR capacity).
    SymbologyFailure { symbology: Symbology },
    /// The requested container format has no defined behaviour here.
    UnsupportedFormat,
    /// Writing the container format failed.
    SerializationFailure,
}

impl Symbology {
    /// The symbology's name as shown in messages.
    pub fn name(self) -> (r: &'static str)
        ensures
            r@ == self.spec_name(),
    {
        match self {
            Symbology::Code128 => "Code128",
            Symbology::Code39 => "Code39",
            Symbology::Code93 => "Code93",
            Symbology::Codabar => "Codabar",
            Symbology::Qr => "QRCode",
        }
    }

    /// The name `name` returns for each variant.
    pub open spec fn spec_name(self) -> Seq<char> {
        match self {
            Symbology::Code128 => "Code128"@,
            Symbology::Code39 => "Code39"@,
            Symbology::Code93 => "Code93"@,
            Symbology::Codabar => "Codabar"@,
            Symbology::Qr => "QRCode"@,
        }
    }
}

impl Encoding {
    /// The identifier's external spelling, as it appears in a request path.
    pub fn name(self) -> (r: &'static str)
        ensures
            r@ == self.spec_name(),
    {
        match self {
            Encoding::BarCode => "BarCode",
            Encoding::QRCode => "QRCode",
            Encoding::Aztec => "Aztec",
            Encoding::PDF417 => "PDF417",
        }
    }

    /// The spelling `name` returns for each variant.
    pub open spec fn spec_name(self) -> Seq<char> {
        match self {
            Encoding::BarCode => "BarCode"@,
            Encoding::QRCode => "QRCode"@,
            Encoding::Aztec => "Aztec"@,
            Encoding::PDF417 => "PDF417"@,
        }
    }
}

impl EncodeError {
    /// A short human-readable description of the failure, naming the
    /// offending encoding where one was requested.
    pub fn message(self) -> (r: String)
        ensures
            r@ == self.spec_message(),
    {
        match self {
            EncodeError::NotSupported { kind } => {
                let mut s = String::from_str("Encoding ");
                s.append(kind.name());
                s.append(" is not supported");
                s
            },
            EncodeError::UnsupportedPayload { reason: PayloadViolation::Empty, .. } => (
            String::from_str("payload is empty")),
            EncodeError::UnsupportedPayload { reason: PayloadViolation::TooLong, .. } => (
            String::from_str("payload is too long for the symbology")),
            EncodeError::UnsupportedPayload { reason: PayloadViolation::Charset, .. } => (
            String::from_str("payload holds characters outside the symbology's repertoire")),
            EncodeError::InvalidParameter { reason: ParamViolation::Empty, .. } => (
            String::from_str("parameter is empty")),
            EncodeError::InvalidParameter { reason: ParamViolation::NonPositive, .. } => (
            String::from_str("parameter must be positive")),
            EncodeError::InvalidParameter { reason: ParamViolation::TooLarge, .. } => (
            String::from_str("parameter is too large")),
            EncodeError::SymbologyFailure { .. } => String::from_str("symbol generation failed"),
            EncodeError::UnsupportedFormat => String::from_str("output format is not supported"),
            EncodeError::SerializationFailure => String::from_str(
                "serializing the image failed",
            ),
        }
    }

    /// The description `message` returns for each variant.
    pub open spec fn spec_message(self) -> Seq<char> {
        match self {
            EncodeError::NotSupported { kind } => "Encoding "@ + kind.spec_name()
                + " is not supported"@,
            EncodeError::UnsupportedPayload { reason: PayloadViolation::Empty, .. } => (
            "payload is empty"@),
            EncodeError::UnsupportedPayload { reason: PayloadViolation::TooLong, .. } => (
            "payload is too long for the symbology"@),
            EncodeError::UnsupportedPayload { reason: PayloadViolation::Charset, .. } => (
            "payload holds characters outside the symbology's repertoire"@),
            EncodeError::InvalidParameter { reason: ParamViolation::Empty, .. } => (
            "parameter is empty"@),
            EncodeError::InvalidParameter { reason: ParamViolation::NonPositive, .. } => (
            "parameter must be positive"@),
            EncodeError::InvalidParameter { reason: ParamViolation::TooLarge, .. } => (
            "parameter is too large"@),
            EncodeError::SymbologyFailure { .. } => "symbol generation failed"@,
            EncodeError::UnsupportedFormat => "output format is not supported"@,
            EncodeError::SerializationFailure => "serializing the image failed"@,
        }
    }
}

} // verus!
