//! The request decision core, held against the content-negotiation table.

use base64::Engine;

use barcode_kit::encoder::SymbolEncoder;
use barcode_kit::errors::Encoding;
use barcode_kit::handler::handle_request;
use barcode_kit::registry::resolve;
use barcode_kit::response::ReplyBody;

const PNG_SIGNATURE: [u8; 8] = [137, 80, 78, 71, 13, 10, 26, 10];

fn encoded_png(encoding: Encoding, payload: &str, height: u32) -> Vec<u8> {
    let enc: SymbolEncoder = resolve(encoding, payload.to_owned(), height).unwrap();
    enc.output().unwrap()
}

fn body_text(body: &ReplyBody) -> &str {
    match body {
        ReplyBody::Text(t) => t.as_str(),
        ReplyBody::Binary(_) => panic!("expected a text body"),
    }
}

#[test]
fn barcode_ok() {
    let response = handle_request(Encoding::BarCode, "aaa".to_owned(), 300, Some("text/plain"));
    assert_eq!(200, response.status);
}

#[test]
fn barcode_bad() {
    let response = handle_request(
        Encoding::BarCode,
        "\u{0442}\u{0435}\u{0441}\u{0442}".to_owned(),
        300,
        Some("text/plain"),
    );
    assert_eq!(400, response.status);
}

#[test]
fn qrcode_ok() {
    let response = handle_request(
        Encoding::QRCode,
        "\u{0442}\u{0435}\u{0441}\u{0442}".to_owned(),
        300,
        Some("text/plain"),
    );
    assert_eq!(200, response.status);
}

#[test]
fn pdf417_not_supported() {
    let response = handle_request(Encoding::PDF417, "aaa".to_owned(), 300, Some("text/plain"));
    assert_eq!(400, response.status);
}

#[test]
fn aztec_not_supported() {
    let response = handle_request(Encoding::Aztec, "aaa".to_owned(), 300, Some("text/plain"));
    assert_eq!(400, response.status);
}

#[test]
fn image_accept_returns_raw_png() {
    let response = handle_request(Encoding::BarCode, "aaa".to_owned(), 300, Some("image/png"));
    assert_eq!(200, response.status);
    assert_eq!("image/png", response.content_type.as_str());
    let bytes = match &response.body {
        ReplyBody::Binary(b) => b.clone(),
        ReplyBody::Text(_) => panic!("expected raw bytes"),
    };
    assert_eq!(&bytes[..8], &PNG_SIGNATURE);
    assert_eq!(bytes, encoded_png(Encoding::BarCode, "aaa", 300));
}

#[test]
fn json_accept_returns_wrapped_base64() {
    let response = handle_request(
        Encoding::BarCode,
        "aaa".to_owned(),
        300,
        Some("application/json"),
    );
    assert_eq!(200, response.status);
    assert_eq!("application/json", response.content_type.as_str());
    let b64 = base64::engine::general_purpose::STANDARD
        .encode(encoded_png(Encoding::BarCode, "aaa", 300));
    let expected = format!(
        "{{\"payload\":\"{}\",\"payload_type\":\"image/png\"}}",
        b64
    );
    assert_eq!(expected, body_text(&response.body));
}

#[test]
fn html_accept_returns_inline_image_tag() {
    let response = handle_request(Encoding::BarCode, "aaa".to_owned(), 300, Some("text/html"));
    assert_eq!(200, response.status);
    assert_eq!("text/html; charset=utf-8", response.content_type.as_str());
    let b64 = base64::engine::general_purpose::STANDARD
        .encode(encoded_png(Encoding::BarCode, "aaa", 300));
    let expected_tag = format!("<img src=\"data:image/png;base64, {}\"/>", b64);
    assert!(body_text(&response.body).contains(&expected_tag));
}

#[test]
fn missing_header_returns_html() {
    let response = handle_request(Encoding::BarCode, "aaa".to_owned(), 300, None);
    assert_eq!(200, response.status);
    assert_eq!("text/html; charset=utf-8", response.content_type.as_str());
    assert!(body_text(&response.body).contains("<img src=\"data:image/png;base64, "));
}

#[test]
fn json_negotiated_failures_mirror_the_error() {
    let response = handle_request(
        Encoding::PDF417,
        "aaa".to_owned(),
        300,
        Some("application/json"),
    );
    assert_eq!(400, response.status);
    assert_eq!("application/json", response.content_type.as_str());
    assert_eq!(
        "{\"error\":\"Encoding PDF417 is not supported\"}",
        body_text(&response.body)
    );
}

#[test]
fn handler_rejects_zero_height() {
    let response = handle_request(Encoding::BarCode, "aaa".to_owned(), 0, None);
    assert_eq!(400, response.status);
    assert!(body_text(&response.body).contains("positive"));
}

#[test]
fn handler_rejects_oversized_height() {
    let response = handle_request(Encoding::BarCode, "aaa".to_owned(), 10001, None);
    assert_eq!(400, response.status);
    assert!(body_text(&response.body).contains("too large"));
}

#[test]
fn handler_rejects_empty_payload() {
    let response = handle_request(Encoding::QRCode, String::new(), 300, None);
    assert_eq!(400, response.status);
    assert!(body_text(&response.body).contains("empty"));
}

#[test]
fn handler_is_deterministic() {
    let a = handle_request(Encoding::QRCode, "same".to_owned(), 120, Some("image/png"));
    let b = handle_request(Encoding::QRCode, "same".to_owned(), 120, Some("image/png"));
    match (&a.body, &b.body) {
        (ReplyBody::Binary(x), ReplyBody::Binary(y)) => assert_eq!(x, y),
        _ => panic!("expected raw bytes from both"),
    }
}
