//! The request decision core: resolve the encoding, run the pipeline,
//! negotiate the reply representation, and map every typed failure to a
//! client-error reply. Transport I/O stays outside; this takes plain values
//! and returns a plain reply.

use vstd::prelude::*;

use crate::barcode::{linear_bits, linear_raster, spec_xdim};
use crate::errors::{EncodeError, Encoding, PayloadViolation, Symbology};
use crate::overlay::{composed_data, composed_width};
use crate::pixel::{PixelBuffer, PixelFormat};
use crate::encoder::{ImageTarget, OutputParams};
use crate::pipeline::run;
use crate::png::png_bytes;
use crate::qrcode::qr_symbol;
use crate::registry::{resolve, spec_resolve_err};
use crate::repertoire::{payload_admissible, spec_payload_violation};
use crate::response::{
    base64_chars, get_error_output, get_response_format, get_successful_output, html_error_body,
    html_success_body, json_body, json_error_body, spec_response_format, HttpReply, ReplyBody,
    ResponseFormat,
};

verus! {

/// The symbology an implemented encoding identifier resolves to: `BarCode`
/// is the Code128 generator, `QRCode` the QR generator.
pub open spec fn kind_symbology(kind: Encoding) -> Symbology {
    match kind {
        Encoding::QRCode => Symbology::Qr,
        _ => Symbology::Code128,
    }
}

/// Whether a request's payload is admissible: for the linear default it
/// passes the symbology's validation; for QR it is non-empty and the
/// generator accepts it as within capacity.
pub open spec fn request_admissible(kind: Encoding, payload: Seq<char>, height: u32) -> bool {
    match kind {
        Encoding::QRCode => payload.len() >= 1 && qr_symbol(payload, height) is Some,
        _ => payload_admissible(Symbology::Code128, payload),
    }
}

/// The encoder failure an inadmissible payload draws.
pub open spec fn request_error(kind: Encoding, payload: Seq<char>) -> EncodeError {
    match kind {
        Encoding::QRCode => if payload.len() == 0 {
            EncodeError::UnsupportedPayload {
                symbology: Symbology::Qr,
                reason: PayloadViolation::Empty,
            }
        } else {
            EncodeError::SymbologyFailure { symbology: Symbology::Qr }
        },
        _ => EncodeError::UnsupportedPayload {
            symbology: Symbology::Code128,
            reason: spec_payload_violation(Symbology::Code128, payload),
        },
    }
}

/// The raster model — width, height, format, pixel bytes — an admissible
/// request renders.
pub open spec fn request_raster(kind: Encoding, payload: Seq<char>, height: u32) -> (
    nat,
    nat,
    PixelFormat,
    Seq<u8>,
) {
    match kind {
        Encoding::QRCode => match qr_symbol(payload, height) {
            Some(v) => (v.0, v.0, PixelFormat::Gray, v.2),
            None => (0, 0, PixelFormat::Gray, Seq::empty()),
        },
        _ => {
            let bits = linear_bits(Symbology::Code128, payload);
            let xdim = spec_xdim(height);
            (
                (bits.len() * xdim) as nat,
                height as nat,
                PixelFormat::Rgba,
                linear_raster(bits, xdim as nat, height as nat),
            )
        },
    }
}

/// The raster an admissible request serializes: its symbol raster, grown
/// beneath by the caption strip when one is supplied.
pub open spec fn request_composite(
    kind: Encoding,
    payload: Seq<char>,
    height: u32,
    caption: Option<&PixelBuffer>,
) -> (nat, nat, PixelFormat, Seq<u8>) {
    let (w, h, fmt, data) = request_raster(kind, payload, height);
    match caption {
        Some(c) => (
            composed_width(w as int, c.width as int) as nat,
            (h + c.height) as nat,
            fmt,
            composed_data(w as int, h as int, fmt, data, c.width as int, c.height as int, c.data@),
        ),
        None => (w, h, fmt, data),
    }
}

/// The PNG bytes an admissible request serializes to.
pub open spec fn request_png(
    kind: Encoding,
    payload: Seq<char>,
    height: u32,
    caption: Option<&PixelBuffer>,
) -> Seq<u8> {
    let m = request_composite(kind, payload, height, caption);
    png_bytes(m.2.spec_channels(), m.0, m.1, m.3)
}

/// A failure reply: status 400, the error's message mirrored as a JSON
/// object when JSON was negotiated, and on an HTML page otherwise.
pub open spec fn error_reply(r: HttpReply, accept: Option<Seq<char>>, e: EncodeError) -> bool {
    &&& r.status == 400
    &&& if spec_response_format(accept) == ResponseFormat::JSON {
        r.content_type@ == "application/json"@ && (r.body matches ReplyBody::Text(t) && t@
            == json_error_body(e.spec_message()))
    } else {
        r.content_type@ == "text/html; charset=utf-8"@ && (r.body matches ReplyBody::Text(t) && t@
            == html_error_body(e.spec_message()))
    }
}

/// A success reply carrying `bytes` in the representation negotiated from
/// `accept`: raw image bytes, the JSON wrapping, or the HTML page.
pub open spec fn success_reply(r: HttpReply, accept: Option<Seq<char>>, bytes: Seq<u8>) -> bool {
    &&& r.status == 200
    &&& match spec_response_format(accept) {
        ResponseFormat::Image => r.content_type@ == "image/png"@ && (r.body matches
        ReplyBody::Binary(b) && b@ == bytes),
        ResponseFormat::JSON => r.content_type@ == "application/json"@ && (r.body matches
        ReplyBody::Text(t) && t@ == json_body(base64_chars(bytes), "image/png"@)),
        ResponseFormat::HTML => r.content_type@ == "text/html; charset=utf-8"@ && (r.body matches
        ReplyBody::Text(t) && t@ == html_success_body(base64_chars(bytes))),
    }
}

/// The view of an optional preference header.
pub open spec fn accept_view(accept: Option<&str>) -> Option<Seq<char>> {
    match accept {
        Some(s) => Some(s@),
        None => None,
    }
}

/// Handles one encode request, with an optional pre-rendered caption strip
/// to lay beneath the symbol: every parameter or resolution failure is a 400
/// reply carrying that error's message; an inadmissible payload is a 400
/// carrying the symbology's typed rejection; an admissible one is owed a
/// 200 reply carrying the request's PNG bytes in the negotiated
/// representation. Failures are rendered in the negotiated format too:
/// JSON where JSON was asked for, HTML otherwise.
pub fn handle_request_with_caption(
    encoding: Encoding,
    payload: String,
    height: u32,
    accept: Option<&str>,
    caption: Option<&PixelBuffer>,
) -> (r: HttpReply)
    requires
        caption matches Some(c) ==> c.wf() && c.format == PixelFormat::Gray && c.width <= 20000
            && c.height <= 2000,
    ensures
        spec_resolve_err(encoding, payload@, height) matches Some(e) ==> error_reply(
            r,
            accept_view(accept),
            e,
        ),
        spec_resolve_err(encoding, payload@, height) is None && !request_admissible(
            encoding,
            payload@,
            height,
        ) ==> error_reply(r, accept_view(accept), request_error(encoding, payload@)),
        spec_resolve_err(encoding, payload@, height) is None && request_admissible(
            encoding,
            payload@,
            height,
        ) ==> success_reply(r, accept_view(accept), request_png(encoding, payload@, height, caption)),
{
    let ghost pv = payload@;
    let format = get_response_format(accept);
    let enc = match resolve(encoding, payload, height) {
        Ok(e) => e,
        Err(err) => {
            return get_error_output(err, format);
        },
    };
    proof {
        assert(encoding == Encoding::BarCode || encoding == Encoding::QRCode);
        if encoding == Encoding::BarCode {
            assert(enc is Bar);
            assert(enc->Bar_0.symbology == Symbology::Code128);
            assert(enc->Bar_0.payload@ == pv);
            assert(enc->Bar_0.height == height);
        } else {
            assert(enc is Qr);
            assert(enc->Qr_0.payload@ == pv);
            assert(enc->Qr_0.height == height);
        }
        assert(enc.admissible() == request_admissible(encoding, pv, height));
        assert(enc.spec_error() == request_error(encoding, pv));
        assert(enc.spec_raster() == request_raster(encoding, pv, height));
    }
    // The caption flag mirrors this request's configuration: on exactly
    // when a rendered strip was supplied.
    let params = OutputParams { format: ImageTarget::Png, append_text: caption.is_some() };
    match run(&enc, &params, caption) {
        Ok(img) => get_successful_output(img.bytes, format),
        Err(err) => get_error_output(err, format),
    }
}

/// Handles one encode request without a caption strip; otherwise exactly
/// [`handle_request_with_caption`].
pub fn handle_request(encoding: Encoding, payload: String, height: u32, accept: Option<&str>) -> (r:
    HttpReply)
    ensures
        spec_resolve_err(encoding, payload@, height) matches Some(e) ==> error_reply(
            r,
            accept_view(accept),
            e,
        ),
        spec_resolve_err(encoding, payload@, height) is None && !request_admissible(
            encoding,
            payload@,
            height,
        ) ==> error_reply(r, accept_view(accept), request_error(encoding, payload@)),
        spec_resolve_err(encoding, payload@, height) is None && request_admissible(
            encoding,
            payload@,
            height,
        ) ==> success_reply(r, accept_view(accept), request_png(encoding, payload@, height, None)),
{
    handle_request_with_caption(encoding, payload, height, accept, None)
}

} // verus!
