//! Cross-cutting properties of the encoders, stated once and proved from
//! the contracts the rest of the crate exposes.

use vstd::prelude::*;

use crate::encoder::SymbolEncoder;

verus! {

/// Encoding is stateless and deterministic: two encoders over identical
/// payload, size and symbology agree on admissibility, on the raster model,
/// and on the failure they report — so two calls of `encode` on identical
/// inputs return byte-identical output, and a retry could never change an
/// outcome.
pub proof fn lemma_encode_deterministic(a: SymbolEncoder, b: SymbolEncoder)
    requires
        a.wf(),
        b.wf(),
        a.spec_symbology() == b.spec_symbology(),
        a.spec_payload() == b.spec_payload(),
        a.spec_height() == b.spec_height(),
    ensures
        a.admissible() == b.admissible(),
        a.spec_raster() == b.spec_raster(),
        a.spec_error() == b.spec_error(),
{
    match (a, b) {
        (SymbolEncoder::Bar(x), SymbolEncoder::Bar(y)) => {
            assert(x.symbology == y.symbology);
            assert(x.payload@ == y.payload@);
            assert(x.height == y.height);
        },
        (SymbolEncoder::Qr(x), SymbolEncoder::Qr(y)) => {
            assert(x.payload@ == y.payload@);
            assert(x.height == y.height);
        },
        (SymbolEncoder::Bar(x), SymbolEncoder::Qr(_)) => {
            assert(x.symbology != crate::errors::Symbology::Qr);
            assert(false);
        },
        (SymbolEncoder::Qr(_), SymbolEncoder::Bar(y)) => {
            assert(y.symbology != crate::errors::Symbology::Qr);
            assert(false);
        },
    }
}

} // verus!
