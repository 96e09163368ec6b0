//! Content negotiation: the three-way classification with its HTML fallback.

use barcode_kit::response::{get_response_format, ResponseFormat};

fn test_header(header: &str) -> ResponseFormat {
    get_response_format(Some(header))
}

#[test]
fn test_no_header() {
    assert!(matches!(get_response_format(None), ResponseFormat::HTML));
}

#[test]
fn test_html_header() {
    assert!(matches!(test_header("text/html"), ResponseFormat::HTML));
}

#[test]
fn test_image() {
    assert!(matches!(test_header("image/png"), ResponseFormat::Image));
}

#[test]
fn test_json() {
    assert!(matches!(test_header("application/json"), ResponseFormat::JSON));
}

#[test]
fn test_accept_title_case() {
    assert!(matches!(test_header("image/webp"), ResponseFormat::Image));
}

#[test]
fn negotiation_is_case_insensitive() {
    assert!(matches!(test_header("IMAGE/PNG"), ResponseFormat::Image));
    assert!(matches!(test_header("Application/JSON"), ResponseFormat::JSON));
}

#[test]
fn unrecognized_preference_falls_back_to_html() {
    assert!(matches!(test_header("text/plain"), ResponseFormat::HTML));
    assert!(matches!(test_header(""), ResponseFormat::HTML));
    assert!(matches!(test_header("imag"), ResponseFormat::HTML));
}
