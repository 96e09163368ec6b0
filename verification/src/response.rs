//! Content negotiation and reply construction.
//!
//! A client preference string is classified into exactly one of three
//! representations by ASCII-case-insensitive prefix matching, with HTML as
//! the fallback for anything absent or unrecognized, so every request gets a
//! deterministic, renderable reply.

use vstd::prelude::*;

use crate::errors::EncodeError;

use base64::Engine;

verus! {

/// The three reply representations.
#[derive(Clone, Copy, Debug, PartialEq, Eq, Structural)]
pub enum ResponseFormat {
    HTML,
    Image,
    JSON,
}

/// A reply body: raw image bytes or text.
#[derive(Debug)]
pub enum ReplyBody {
    Binary(Vec<u8>),
    Text(String),
}

/// A transport-agnostic reply: a status code, a content type and a body.
#[derive(Debug)]
pub struct HttpReply {
    pub status: u16,
    pub content_type: String,
    pub body: ReplyBody,
}

/// A character's code point with an ASCII upper-case letter folded to its
/// lower-case counterpart.
pub open spec fn lower_code(c: char) -> int {
    if 65 <= c as int <= 90 {
        c as int + 32
    } else {
        c as int
    }
}

/// Whether `s` starts with `p`, compared ASCII-case-insensitively.
pub open spec fn spec_prefix_ci(s: Seq<char>, p: Seq<char>) -> bool {
    p.len() <= s.len() && forall|i: int| 0 <= i < p.len() ==> lower_code(#[trigger] s[i]) == lower_code(p[i])
}

/// Whether `s` starts with `p`, compared ASCII-case-insensitively.
pub fn starts_with_ci(s: &str, p: &str) -> (r: bool)
    ensures
        r == spec_prefix_ci(s@, p@),
{
    let sn = s.unicode_len();
    let pn = p.unicode_len();
    if pn > sn {
        return false;
    }
    for i in 0..pn
        invariant
            sn == s@.len(),
            pn == p@.len(),
            pn <= sn,
            forall|j: int| 0 <= j < i ==> lower_code(#[trigger] s@[j]) == lower_code(p@[j]),
    {
        let sc = s.get_char(i) as u32;
        let pc = p.get_char(i) as u32;
        let sl = if 65 <= sc && sc <= 90 {
            sc + 32
        } else {
            sc
        };
        let pl = if 65 <= pc && pc <= 90 {
            pc + 32
        } else {
            pc
        };
        if sl != pl {
            return false;
        }
    }
    true
}

/// The representation negotiated from a client preference: a prefix `image`
/// picks the raw image, a prefix `application/json` the JSON wrapping, and
/// anything else — a missing or unrecognized preference included — HTML.
pub open spec fn spec_response_format(accept: Option<Seq<char>>) -> ResponseFormat {
    match accept {
        None => ResponseFormat::HTML,
        Some(s) => if spec_prefix_ci(s, "image"@) {
            ResponseFormat::Image
        } else if spec_prefix_ci(s, "application/json"@) {
            ResponseFormat::JSON
        } else {
            ResponseFormat::HTML
        },
    }
}

/// Negotiates the reply representation from the request's preference
/// header value, if one came.
pub fn get_response_format(accept: Option<&str>) -> (r: ResponseFormat)
    ensures
        accept matches Some(s) ==> r == spec_response_format(Some(s@)),
        accept is None ==> r == ResponseFormat::HTML,
{
    match accept {
        None => ResponseFormat::HTML,
        Some(value) => {
            if starts_with_ci(value, "image") {
                ResponseFormat::Image
            } else if starts_with_ci(value, "application/json") {
                ResponseFormat::JSON
            } else {
                ResponseFormat::HTML
            }
        },
    }
}

/// The base64 text of a byte sequence, standard alphabet with padding.
pub uninterp spec fn base64_chars(bytes: Seq<u8>) -> Seq<char>;

/// Relies on base64's standard-alphabet engine with padding: the text is a
/// function of the bytes alone, four characters for every started group of
/// three bytes.
#[verifier::external_body]
fn base64_encode(data: &Vec<u8>) -> (r: String)
    ensures
        r@ == base64_chars(data@),
        r@.len() == 4 * ((data@.len() + 2) / 3),
{
    base64::engine::general_purpose::STANDARD.encode(data.as_slice())
}

/// The JSON reply object: the image bytes in base64 and their MIME type.
#[derive(Debug)]
pub struct JsonResponse {
    pub payload: String,
    pub payload_type: String,
}

impl JsonResponse {
    /// Wraps encoded image bytes for a JSON reply.
    pub fn new_from_data(data: Vec<u8>) -> (r: JsonResponse)
        ensures
            r.payload@ == base64_chars(data@),
            r.payload_type@ == "image/png"@,
    {
        JsonResponse { payload: base64_encode(&data), payload_type: String::from_str("image/png") }
    }

    /// The object serialized as a JSON text.
    pub fn to_json(&self) -> (r: String)
        ensures
            r@ == json_body(self.payload@, self.payload_type@),
    {
        let mut s = String::from_str("{\"payload\":\"");
        s.append(self.payload.as_str());
        s.append("\",\"payload_type\":\"");
        s.append(self.payload_type.as_str());
        s.append("\"}");
        s
    }
}

/// The JSON text for a payload and its type. Both are base64 text or a MIME
/// name, so no JSON escaping is ever needed.
pub open spec fn json_body(payload: Seq<char>, payload_type: Seq<char>) -> Seq<char> {
    "{\"payload\":\""@ + payload + "\",\"payload_type\":\""@ + payload_type + "\"}"@
}

/// The HTML page embedding the image as a base64 data URI.
pub open spec fn html_success_body(b64: Seq<char>) -> Seq<char> {
    "<p>Welcome!</p><img src=\"data:image/png;base64, "@ + b64 + "\"/>"@
}

/// The HTML page reporting a failure message.
pub open spec fn html_error_body(msg: Seq<char>) -> Seq<char> {
    "<p>Error!</p><p>"@ + msg + "<p/>"@
}

/// The JSON object mirroring a failure message. Messages are plain ASCII
/// without quotes or backslashes, so no JSON escaping is ever needed.
pub open spec fn json_error_body(msg: Seq<char>) -> Seq<char> {
    "{\"error\":\""@ + msg + "\"}"@
}

/// Builds the successful reply for encoded image bytes in the negotiated
/// representation: the raw bytes as `image/png`, the JSON wrapping, or the
/// HTML page with an inline data URI. The status is always 200.
pub fn get_successful_output(data: Vec<u8>, format: ResponseFormat) -> (r: HttpReply)
    ensures
        r.status == 200,
        format == ResponseFormat::Image ==> r.content_type@ == "image/png"@ && (r.body matches
            ReplyBody::Binary(b) && b@ == data@),
        format == ResponseFormat::JSON ==> r.content_type@ == "application/json"@ && (r.body matches
            ReplyBody::Text(t) && t@ == json_body(base64_chars(data@), "image/png"@)),
        format == ResponseFormat::HTML ==> r.content_type@ == "text/html; charset=utf-8"@ && (
        r.body matches ReplyBody::Text(t) && t@ == html_success_body(base64_chars(data@))),
{
    match format {
        ResponseFormat::Image => HttpReply {
            status: 200,
            content_type: String::from_str("image/png"),
            body: ReplyBody::Binary(data),
        },
        ResponseFormat::JSON => {
            let json = JsonResponse::new_from_data(data);
            HttpReply {
                status: 200,
                content_type: String::from_str("application/json"),
                body: ReplyBody::Text(json.to_json()),
            }
        },
        ResponseFormat::HTML => {
            let b64 = base64_encode(&data);
            let mut body = String::from_str("<p>Welcome!</p><img src=\"data:image/png;base64, ");
            body.append(b64.as_str());
            body.append("\"/>");
            HttpReply {
                status: 200,
                content_type: String::from_str("text/html; charset=utf-8"),
                body: ReplyBody::Text(body),
            }
        },
    }
}

/// Builds the failure reply: status 400 — every error kind here is a
/// client-side fault — with the error's message mirrored as a JSON object
/// when JSON was negotiated, and on an HTML page otherwise (an image cannot
/// carry a message, so the image representation also falls back to HTML).
pub fn get_error_output(error: EncodeError, format: ResponseFormat) -> (r: HttpReply)
    ensures
        r.status == 400,
        format == ResponseFormat::JSON ==> r.content_type@ == "application/json"@ && (
        r.body matches ReplyBody::Text(t) && t@ == json_error_body(error.spec_message())),
        format != ResponseFormat::JSON ==> r.content_type@ == "text/html; charset=utf-8"@ && (
        r.body matches ReplyBody::Text(t) && t@ == html_error_body(error.spec_message())),
{
    match format {
        ResponseFormat::JSON => {
            let msg = error.message();
            let mut body = String::from_str("{\"error\":\"");
            body.append(msg.as_str());
            body.append("\"}");
            HttpReply {
                status: 400,
                content_type: String::from_str("application/json"),
                body: ReplyBody::Text(body),
            }
        },
        _ => {
            let msg = error.message();
            let mut body = String::from_str("<p>Error!</p><p>");
            body.append(msg.as_str());
            body.append("<p/>");
            HttpReply {
                status: 400,
                content_type: String::from_str("text/html; charset=utf-8"),
                body: ReplyBody::Text(body),
            }
        },
    }
}

} // verus!
