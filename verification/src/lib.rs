//! Encoding of text payloads into machine-readable symbol images.
//!
//! The crate covers linear barcodes (Code128, Code39, Code93, Codabar) and QR
//! codes. A payload plus a requested render height is turned into a raster
//! [`pixel::PixelBuffer`], optionally extended with a caption strip, serialized
//! to PNG, and wrapped into a transport-agnostic reply chosen by content
//! negotiation. Low-level symbol generation and PNG containment are delegated
//! to outside crates behind trusted wrappers; everything around them is
//! verified.

pub mod barcode;
pub mod encoder;
pub mod errors;
pub mod handler;
pub mod laws;
pub mod overlay;
pub mod pipeline;
pub mod pixel;
pub mod png;
pub mod qrcode;
pub mod registry;
pub mod response;
pub mod repertoire;
