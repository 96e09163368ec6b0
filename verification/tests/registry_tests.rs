//! The encoder registry and the reply builders around it.

use barcode_kit::encoder::SymbolEncoder;
use barcode_kit::errors::{EncodeError, Encoding, ParamName, ParamViolation};
use barcode_kit::registry::{default_height, parse_encoding, resolve};
use barcode_kit::response::{JsonResponse, ReplyBody};

#[test]
fn aztec_resolves_to_not_supported() {
    let err = resolve(Encoding::Aztec, "aaa".to_owned(), 300).unwrap_err();
    assert_eq!(EncodeError::NotSupported { kind: Encoding::Aztec }, err);
}

#[test]
fn pdf417_resolves_to_not_supported() {
    let err = resolve(Encoding::PDF417, "aaa".to_owned(), 300).unwrap_err();
    assert_eq!(EncodeError::NotSupported { kind: Encoding::PDF417 }, err);
}

#[test]
fn barcode_resolves_to_a_linear_encoder() {
    let enc = resolve(Encoding::BarCode, "aaa".to_owned(), 300).unwrap();
    assert!(matches!(enc, SymbolEncoder::Bar(_)));
}

#[test]
fn qrcode_resolves_to_the_qr_encoder() {
    let enc = resolve(Encoding::QRCode, "aaa".to_owned(), 300).unwrap();
    assert!(matches!(enc, SymbolEncoder::Qr(_)));
}

#[test]
fn resolve_rejects_invalid_parameters() {
    assert_eq!(
        EncodeError::InvalidParameter {
            name: ParamName::Height,
            reason: ParamViolation::NonPositive,
        },
        resolve(Encoding::BarCode, "aaa".to_owned(), 0).unwrap_err()
    );
    assert_eq!(
        EncodeError::InvalidParameter {
            name: ParamName::Height,
            reason: ParamViolation::TooLarge,
        },
        resolve(Encoding::BarCode, "aaa".to_owned(), 10001).unwrap_err()
    );
    assert_eq!(
        EncodeError::InvalidParameter {
            name: ParamName::Payload,
            reason: ParamViolation::Empty,
        },
        resolve(Encoding::BarCode, String::new(), 300).unwrap_err()
    );
}

#[test]
fn unimplemented_kinds_win_over_bad_parameters() {
    // The registry classifies the encoding before it validates parameters.
    let err = resolve(Encoding::Aztec, String::new(), 0).unwrap_err();
    assert_eq!(EncodeError::NotSupported { kind: Encoding::Aztec }, err);
}

#[test]
fn parse_encoding_is_case_sensitive() {
    assert!(matches!(parse_encoding("BarCode"), Some(Encoding::BarCode)));
    assert!(matches!(parse_encoding("QRCode"), Some(Encoding::QRCode)));
    assert!(matches!(parse_encoding("Aztec"), Some(Encoding::Aztec)));
    assert!(matches!(parse_encoding("PDF417"), Some(Encoding::PDF417)));
    assert!(parse_encoding("barcode").is_none());
    assert!(parse_encoding("qrcode").is_none());
    assert!(parse_encoding("").is_none());
}

#[test]
fn height_defaults_to_three_hundred() {
    assert_eq!(300, default_height());
}

#[test]
fn names_keep_their_external_spelling() {
    assert_eq!("PDF417", Encoding::PDF417.name());
    assert_eq!("BarCode", Encoding::BarCode.name());
    assert_eq!("Code128", barcode_kit::errors::Symbology::Code128.name());
    assert_eq!("QRCode", barcode_kit::errors::Symbology::Qr.name());
}

#[test]
fn json_response_encodes_base64() {
    let json = JsonResponse::new_from_data(vec![1, 2, 3]);
    assert_eq!("AQID", json.payload.as_str());
    assert_eq!("image/png", json.payload_type.as_str());
    assert_eq!(
        "{\"payload\":\"AQID\",\"payload_type\":\"image/png\"}",
        json.to_json().as_str()
    );
}

#[test]
fn error_messages_name_the_failure() {
    let reply = barcode_kit::response::get_error_output(
        EncodeError::NotSupported { kind: Encoding::Aztec },
        barcode_kit::response::ResponseFormat::HTML,
    );
    assert_eq!(400, reply.status);
    match &reply.body {
        ReplyBody::Text(t) => assert!(t.contains("Encoding Aztec is not supported")),
        ReplyBody::Binary(_) => panic!("expected text"),
    }
}

#[test]
fn json_negotiated_errors_are_json_objects() {
    let reply = barcode_kit::response::get_error_output(
        EncodeError::NotSupported { kind: Encoding::PDF417 },
        barcode_kit::response::ResponseFormat::JSON,
    );
    assert_eq!(400, reply.status);
    assert_eq!("application/json", reply.content_type.as_str());
    match &reply.body {
        ReplyBody::Text(t) => {
            assert_eq!("{\"error\":\"Encoding PDF417 is not supported\"}", t.as_str())
        }
        ReplyBody::Binary(_) => panic!("expected text"),
    }
}
