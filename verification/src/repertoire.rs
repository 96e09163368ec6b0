//! Character repertoires and length capacities of the supported symbologies.
//!
//! Each linear symbology admits a fixed character set; a payload outside it
//! must be rejected with a typed failure rather than truncated or garbled.
//! The sets below mirror the tables of the symbol-generation crate, so a
//! validated payload is never refused downstream.

use vstd::prelude::*;

use crate::errors::{PayloadViolation, Symbology};

verus! {

/// Characters Code128 accepts here: the printable ASCII range covered by the
/// generator's character-set B, which the encoder selects for every payload.
pub open spec fn code128_admits(c: char) -> bool {
    32 <= c as int <= 126
}

/// Characters of the Code39 repertoire: digits, upper-case letters and the
/// seven symbols `- . space $ / + %`.
pub open spec fn code39_admits(c: char) -> bool {
    (48 <= c as int <= 57) || (65 <= c as int <= 90) || c == '-' || c == '.' || c == ' ' || c
        == '$' || c == '/' || c == '+' || c == '%'
}

/// Characters of the Code93 repertoire: the Code39 set plus the full-ASCII
/// marker characters `( ) [`.
pub open spec fn code93_admits(c: char) -> bool {
    code39_admits(c) || c == '(' || c == ')' || c == '['
}

/// Characters of the Codabar repertoire: digits, the guard letters `A`-`D`
/// and the six symbols `- $ / : . +`.
pub open spec fn codabar_admits(c: char) -> bool {
    (48 <= c as int <= 57) || (65 <= c as int <= 68) || c == '-' || c == '$' || c == '/' || c
        == ':' || c == '.' || c == '+'
}

/// Whether one character belongs to a symbology's repertoire. QR codes admit
/// every character.
pub open spec fn symbology_admits(sym: Symbology, c: char) -> bool {
    match sym {
        Symbology::Code128 => code128_admits(c),
        Symbology::Code39 => code39_admits(c),
        Symbology::Code93 => code93_admits(c),
        Symbology::Codabar => codabar_admits(c),
        Symbology::Qr => true,
    }
}

/// The largest payload the linear symbologies accept, in characters. It is
/// the generator's own parsing cap for Code39, Code93 and Codabar; the
/// generator does not cap Code128 itself, so there the same bound is applied
/// uniformly and conservatively.
pub const LINEAR_MAX_CHARS: usize = 256;

/// How a payload's size is held against a symbology's capacity. The linear
/// generators parse by characters; for QR the capacity decision belongs to
/// the generator itself (its segment optimizer decides what fits) and is
/// surfaced by the QR module, not anticipated here.
pub open spec fn payload_within_capacity(sym: Symbology, s: Seq<char>) -> bool {
    match sym {
        Symbology::Qr => true,
        _ => s.len() <= LINEAR_MAX_CHARS,
    }
}

/// A payload a symbology validates up front: non-empty, within the
/// symbology's up-front capacity, and made of repertoire characters only.
/// For QR this leaves only non-emptiness; whether the payload fits the QR
/// capacity is the generator's own decision.
pub open spec fn payload_admissible(sym: Symbology, s: Seq<char>) -> bool {
    &&& 1 <= s.len()
    &&& payload_within_capacity(sym, s)
    &&& forall|i: int| 0 <= i < s.len() ==> symbology_admits(sym, #[trigger] s[i])
}

/// The violation reported for an inadmissible payload: emptiness first, then
/// excess size, then a character outside the repertoire.
pub open spec fn spec_payload_violation(sym: Symbology, s: Seq<char>) -> PayloadViolation {
    if s.len() == 0 {
        PayloadViolation::Empty
    } else if !payload_within_capacity(sym, s) {
        PayloadViolation::TooLong
    } else {
        PayloadViolation::Charset
    }
}

/// Whether `c` belongs to `sym`'s repertoire.
pub fn char_admitted(sym: Symbology, c: char) -> (r: bool)
    ensures
        r == symbology_admits(sym, c),
{
    let v = c as u32;
    match sym {
        Symbology::Code128 => 32 <= v && v <= 126,
        Symbology::Code39 => (48 <= v && v <= 57) || (65 <= v && v <= 90) || c == '-' || c == '.'
            || c == ' ' || c == '$' || c == '/' || c == '+' || c == '%',
        Symbology::Code93 => (48 <= v && v <= 57) || (65 <= v && v <= 90) || c == '-' || c == '.'
            || c == ' ' || c == '$' || c == '/' || c == '+' || c == '%' || c == '(' || c == ')' || c
            == '[',
        Symbology::Codabar => (48 <= v && v <= 57) || (65 <= v && v <= 68) || c == '-' || c == '$'
            || c == '/' || c == ':' || c == '.' || c == '+',
        Symbology::Qr => true,
    }
}

/// Checks a payload against a symbology's repertoire and capacity.
/// Returns `None` exactly when the payload is admissible, and otherwise the
/// first violation in the order empty, too long, bad character.
pub fn validate_payload(sym: Symbology, payload: &str) -> (r: Option<PayloadViolation>)
    ensures
        r is None <==> payload_admissible(sym, payload@),
        r matches Some(v) ==> v == spec_payload_violation(sym, payload@),
{
    let n = payload.unicode_len();
    if n == 0 {
        return Some(PayloadViolation::Empty);
    }
    let within = match sym {
        Symbology::Qr => true,
        _ => n <= LINEAR_MAX_CHARS,
    };
    if !within {
        return Some(PayloadViolation::TooLong);
    }
    for i in 0..n
        invariant
            n == payload@.len(),
            1 <= n,
            payload_within_capacity(sym, payload@),
            forall|j: int| 0 <= j < i ==> symbology_admits(sym, #[trigger] payload@[j]),
    {
        let c = payload.get_char(i);
        if !char_admitted(sym, c) {
            return Some(PayloadViolation::Charset);
        }
    }
    None
}

} // verus!
