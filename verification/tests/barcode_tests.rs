//! Linear barcode encoding: repertoires, sizing, and the painted raster.

use barcode_kit::barcode::BarCode;
use barcode_kit::errors::{EncodeError, PayloadViolation, Symbology};
use barcode_kit::pixel::PixelFormat;

/// The generator's bit pattern for Code39 "1234": guard, four characters
/// with separators, guard.
const CODE39_1234: &str =
    "10010110110101101001010110101100101011011011001010101010011010110100101101101";

#[test]
fn code39_raster_matches_bit_pattern() {
    let bar = BarCode::with_symbology("1234".to_owned(), 60, Symbology::Code39);
    let image = bar.encode().unwrap();
    assert_eq!(60, image.height);
    assert_eq!(CODE39_1234.len() as u32, image.width);
    assert!(matches!(image.format, PixelFormat::Rgba));
    for (x, bit) in CODE39_1234.chars().enumerate() {
        let expected: u8 = if bit == '1' { 0 } else { 255 };
        // Red channel of the pixel at column x, row 0.
        assert_eq!(expected, image.data[x * 4]);
        // The alpha channel is opaque either way.
        assert_eq!(255, image.data[x * 4 + 3]);
    }
}

#[test]
fn linear_codes_keep_requested_height() {
    for symbology in [
        Symbology::Code128,
        Symbology::Code39,
        Symbology::Code93,
        Symbology::Codabar,
    ] {
        let bar = BarCode::with_symbology("123".to_owned(), 150, symbology);
        let image = bar.encode().unwrap();
        assert_eq!(150, image.height);
        assert!(image.width > 0);
        assert_eq!(
            image.data.len(),
            (image.width as usize) * (image.height as usize) * 4
        );
    }
}

#[test]
fn wider_modules_for_taller_codes() {
    let short = BarCode::new("aaa".to_owned(), 100).encode().unwrap();
    let tall = BarCode::new("aaa".to_owned(), 300).encode().unwrap();
    // Same bit pattern, xdim 1 against xdim 3.
    assert_eq!(short.width * 3, tall.width);
}

#[test]
fn xdim_follows_the_height_steps() {
    let cases: [(u32, u32); 9] = [
        (1, 1),
        (100, 1),
        (101, 2),
        (200, 2),
        (201, 3),
        (300, 3),
        (301, 4),
        (400, 4),
        (401, 5),
    ];
    for (height, expected) in cases {
        assert_eq!(expected, BarCode::new("x".to_owned(), height).xdim());
    }
}

#[test]
fn bit_pattern_lengths_follow_the_symbology() {
    // Widths at xdim 1: one pixel column per emitted bit.
    let code128 = BarCode::with_symbology("aaa".to_owned(), 100, Symbology::Code128);
    assert_eq!(11 * 3 + 35, code128.encode().unwrap().width);
    let code39 = BarCode::with_symbology("123".to_owned(), 100, Symbology::Code39);
    assert_eq!(13 * 3 + 25, code39.encode().unwrap().width);
    let code93 = BarCode::with_symbology("123".to_owned(), 100, Symbology::Code93);
    assert_eq!(9 * 3 + 37, code93.encode().unwrap().width);
    // Codabar: A and B guards are ten bits, the digit nine, plus two
    // separator bits.
    let codabar = BarCode::with_symbology("A1B".to_owned(), 100, Symbology::Codabar);
    assert_eq!(10 + 9 + 10 + 2, codabar.encode().unwrap().width);
}

#[test]
fn smallest_height_still_encodes() {
    let image = BarCode::new("x".to_owned(), 1).encode().unwrap();
    assert_eq!(1, image.height);
    assert!(image.width > 0);
}

#[test]
fn code128_rejects_non_ascii_payload() {
    let bar = BarCode::new("\u{0442}\u{0435}\u{0441}\u{0442}".to_owned(), 300);
    let err = bar.encode().unwrap_err();
    assert_eq!(
        err,
        EncodeError::UnsupportedPayload {
            symbology: Symbology::Code128,
            reason: PayloadViolation::Charset,
        }
    );
}

#[test]
fn code39_rejects_lower_case() {
    let bar = BarCode::with_symbology("abc".to_owned(), 100, Symbology::Code39);
    let err = bar.encode().unwrap_err();
    assert_eq!(
        err,
        EncodeError::UnsupportedPayload {
            symbology: Symbology::Code39,
            reason: PayloadViolation::Charset,
        }
    );
}

#[test]
fn code93_rejects_lower_case() {
    let bar = BarCode::with_symbology("abc".to_owned(), 100, Symbology::Code93);
    let err = bar.encode().unwrap_err();
    assert_eq!(
        err,
        EncodeError::UnsupportedPayload {
            symbology: Symbology::Code93,
            reason: PayloadViolation::Charset,
        }
    );
}

#[test]
fn codabar_rejects_letters_beyond_guards() {
    let bar = BarCode::with_symbology("xyz".to_owned(), 100, Symbology::Codabar);
    let err = bar.encode().unwrap_err();
    assert_eq!(
        err,
        EncodeError::UnsupportedPayload {
            symbology: Symbology::Codabar,
            reason: PayloadViolation::Charset,
        }
    );
}

#[test]
fn codabar_accepts_its_repertoire() {
    let bar = BarCode::with_symbology("A12-$:/.+34B".to_owned(), 100, Symbology::Codabar);
    assert!(bar.encode().is_ok());
}

#[test]
fn code93_accepts_markers_beyond_code39() {
    let bar = BarCode::with_symbology("AB(12)[".to_owned(), 100, Symbology::Code93);
    assert!(bar.encode().is_ok());
}

#[test]
fn linear_code_rejects_overlong_payload() {
    let long = "1".repeat(257);
    let bar = BarCode::with_symbology(long, 100, Symbology::Code39);
    let err = bar.encode().unwrap_err();
    assert_eq!(
        err,
        EncodeError::UnsupportedPayload {
            symbology: Symbology::Code39,
            reason: PayloadViolation::TooLong,
        }
    );
}

#[test]
fn linear_code_rejects_empty_payload() {
    let bar = BarCode::new(String::new(), 100);
    let err = bar.encode().unwrap_err();
    assert_eq!(
        err,
        EncodeError::UnsupportedPayload {
            symbology: Symbology::Code128,
            reason: PayloadViolation::Empty,
        }
    );
}

#[test]
fn barcode_encode_is_deterministic() {
    let a = BarCode::new("PAYLOAD 42".to_owned(), 250).encode().unwrap();
    let b = BarCode::new("PAYLOAD 42".to_owned(), 250).encode().unwrap();
    assert_eq!(a.width, b.width);
    assert_eq!(a.data, b.data);
}

#[test]
fn barcode_reports_its_payload() {
    let bar = BarCode::new("content".to_owned(), 100);
    assert_eq!("content", bar.payload());
}
