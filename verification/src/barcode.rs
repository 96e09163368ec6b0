//! Linear barcode encoding: Code128, Code39, Code93 and Codabar.
//!
//! A validated payload is turned into a bit pattern (one entry per module)
//! by the symbol-generation crate, and the bit pattern is painted into an
//! RGBA raster whose every byte is pinned by [`linear_raster`].

use vstd::prelude::*;

use crate::errors::{EncodeError, Symbology};
use crate::pixel::{PixelBuffer, PixelFormat};
use crate::repertoire::{payload_admissible, spec_payload_violation, validate_payload};

use barcoders::generators::image::{Color, Image, Rotation};
use barcoders::sym::codabar::Codabar;
use barcoders::sym::code128::Code128;
use barcoders::sym::code39::Code39;
use barcoders::sym::code93::Code93;

verus! {

/// The module bit pattern the generator emits for a Code128 payload, encoded
/// in character set B.
pub uninterp spec fn code128_bit_pattern(s: Seq<char>) -> Seq<u8>;

/// The module bit pattern the generator emits for a Code39 payload.
pub uninterp spec fn code39_bit_pattern(s: Seq<char>) -> Seq<u8>;

/// The module bit pattern the generator emits for a Code93 payload.
pub uninterp spec fn code93_bit_pattern(s: Seq<char>) -> Seq<u8>;

/// The module bit pattern the generator emits for a Codabar payload.
pub uninterp spec fn codabar_bit_pattern(s: Seq<char>) -> Seq<u8>;

/// The bit pattern of a linear symbology for a payload.
pub open spec fn linear_bits(sym: Symbology, s: Seq<char>) -> Seq<u8> {
    match sym {
        Symbology::Code128 => code128_bit_pattern(s),
        Symbology::Code39 => code39_bit_pattern(s),
        Symbology::Code93 => code93_bit_pattern(s),
        Symbology::Codabar => codabar_bit_pattern(s),
        Symbology::Qr => Seq::empty(),
    }
}

/// Relies on barcoders' `Code128::new` and `encode`: an admissible payload,
/// prefixed with the character-set-B selector the crate's input syntax
/// demands, parses to one unit per character, and `encode` emits eleven bits
/// per unit plus a checksum, a stop pattern and a two-bit terminator.
#[verifier::external_body]
fn code128_bits(payload: &str) -> (r: Vec<u8>)
    requires
        payload_admissible(Symbology::Code128, payload@),
    ensures
        r@ == code128_bit_pattern(payload@),
        r@.len() == 11 * payload@.len() + 35,
        forall|i: int| 0 <= i < r@.len() ==> r@[i] == 0 || r@[i] == 1,
{
    let data = "\u{0181}".to_owned() + payload;
    Code128::new(data).unwrap().encode()
}

/// Relies on barcoders' `Code39::new` and `encode`: an admissible payload
/// parses, and `encode` emits a twelve-bit guard, then per character a
/// separator bit and twelve bits, then a separator and the closing guard.
#[verifier::external_body]
fn code39_bits(payload: &str) -> (r: Vec<u8>)
    requires
        payload_admissible(Symbology::Code39, payload@),
    ensures
        r@ == code39_bit_pattern(payload@),
        r@.len() == 13 * payload@.len() + 25,
        forall|i: int| 0 <= i < r@.len() ==> r@[i] == 0 || r@[i] == 1,
{
    Code39::new(payload).unwrap().encode()
}

/// Relies on barcoders' `Code93::new` and `encode`: an admissible payload
/// parses, and `encode` emits nine bits per character plus two check
/// characters, two nine-bit guards and a terminator bit.
#[verifier::external_body]
fn code93_bits(payload: &str) -> (r: Vec<u8>)
    requires
        payload_admissible(Symbology::Code93, payload@),
    ensures
        r@ == code93_bit_pattern(payload@),
        r@.len() == 9 * payload@.len() + 37,
        forall|i: int| 0 <= i < r@.len() ==> r@[i] == 0 || r@[i] == 1,
{
    Code93::new(payload).unwrap().encode()
}

/// Relies on barcoders' `Codabar::new` and `encode`: an admissible payload
/// parses, and `encode` emits nine to twelve bits per character with a
/// separator bit between characters.
#[verifier::external_body]
fn codabar_bits(payload: &str) -> (r: Vec<u8>)
    requires
        payload_admissible(Symbology::Codabar, payload@),
    ensures
        r@ == codabar_bit_pattern(payload@),
        10 * payload@.len() - 1 <= r@.len() <= 13 * payload@.len() - 1,
        forall|i: int| 0 <= i < r@.len() ==> r@[i] == 0 || r@[i] == 1,
{
    Codabar::new(payload).unwrap().encode()
}

/// The RGBA raster of a linear barcode: each bit paints a column `xdim`
/// pixels wide over the full height, dark bits black, others white,
/// row-major, four bytes per pixel.
pub open spec fn linear_raster(bits: Seq<u8>, xdim: nat, height: nat) -> Seq<u8> {
    Seq::new(
        bits.len() * xdim * height * 4,
        |i: int|
            {
                let w = bits.len() * xdim;
                let x = (i / 4) % (w as int);
                if bits[x / (xdim as int)] == 0 {
                    255u8
                } else if i % 4 == 3 {
                    255u8
                } else {
                    0u8
                }
            },
    )
}

/// Relies on barcoders' image generator: `generate_buffer` paints each bit
/// as an `xdim`-wide column over the full height, black on white, into a
/// row-major RGBA buffer of width `bits.len() * xdim`.
#[verifier::external_body]
fn generate_linear_raster(bits: &Vec<u8>, xdim: u32, height: u32) -> (r: (u32, Vec<u8>))
    requires
        1 <= xdim <= 5,
        1 <= height <= 10000,
        1 <= bits@.len() <= 4000,
        forall|i: int| 0 <= i < bits@.len() ==> bits@[i] == 0 || bits@[i] == 1,
    ensures
        r.0 == bits@.len() * xdim,
        r.1@ == linear_raster(bits@, xdim as nat, height as nat),
{
    let buffer = Image::ImageBuffer {
        height,
        xdim,
        rotation: Rotation::Zero,
        foreground: Color::black(),
        background: Color::white(),
    };
    let img = buffer.generate_buffer(&bits[..]).unwrap();
    let width = img.width();
    (width, img.into_raw())
}

/// The module width for a requested height: linear-barcode readability asks
/// for wider modules as the printed size grows.
pub open spec fn spec_xdim(height: u32) -> u32 {
    if height <= 100 {
        1u32
    } else if height <= 200 {
        2u32
    } else if height <= 300 {
        3u32
    } else if height <= 400 {
        4u32
    } else {
        5u32
    }
}

/// A linear barcode request: a payload, a render height and a symbology.
#[derive(Debug)]
pub struct BarCode {
    pub payload: String,
    pub height: u32,
    pub symbology: Symbology,
}

impl BarCode {
    /// A barcode over the default symbology, Code128, whose character-set B
    /// covers all printable ASCII payloads.
    pub fn new(payload: String, height: u32) -> (r: BarCode)
        ensures
            r.payload@ == payload@,
            r.height == height,
            r.symbology == Symbology::Code128,
    {
        BarCode { payload, height, symbology: Symbology::Code128 }
    }

    /// A barcode over a chosen linear symbology.
    pub fn with_symbology(payload: String, height: u32, symbology: Symbology) -> (r: BarCode)
        requires
            symbology != Symbology::Qr,
        ensures
            r.payload@ == payload@,
            r.height == height,
            r.symbology == symbology,
    {
        BarCode { payload, height, symbology }
    }

    /// The payload this barcode encodes.
    pub fn payload(&self) -> (r: &str)
        ensures
            r@ == self.payload@,
    {
        self.payload.as_str()
    }

    /// The module width derived from the requested height.
    pub fn xdim(&self) -> (r: u32)
        ensures
            r == spec_xdim(self.height),
            1 <= r <= 5,
    {
        if self.height <= 100 {
            1
        } else if self.height <= 200 {
            2
        } else if self.height <= 300 {
            3
        } else if self.height <= 400 {
            4
        } else {
            5
        }
    }

    /// The symbology's bit pattern for this payload, one entry per module.
    pub fn get_bytes(&self) -> (r: Vec<u8>)
        requires
            self.symbology != Symbology::Qr,
            payload_admissible(self.symbology, self.payload@),
        ensures
            r@ == linear_bits(self.symbology, self.payload@),
            1 <= r@.len() <= 13 * self.payload@.len() + 35,
            forall|i: int| 0 <= i < r@.len() ==> r@[i] == 0 || r@[i] == 1,
    {
        match self.symbology {
            Symbology::Code128 => code128_bits(self.payload.as_str()),
            Symbology::Code39 => code39_bits(self.payload.as_str()),
            Symbology::Code93 => code93_bits(self.payload.as_str()),
            Symbology::Codabar => codabar_bits(self.payload.as_str()),
            Symbology::Qr => Vec::new(),
        }
    }

    /// Encodes the payload as an RGBA raster of the requested height.
    /// Succeeds exactly on admissible payloads; an inadmissible one is
    /// reported as an `UnsupportedPayload` of this symbology, never encoded
    /// loosely.
    ///
    /// Deviation, documented: the symbol-generation crate paints no quiet
    /// zone around linear barcodes, so the raster starts at the first
    /// module. A host that prints or displays the symbol should add its own
    /// blank margin for scanner reliability.
    pub fn encode(&self) -> (r: Result<PixelBuffer, EncodeError>)
        requires
            1 <= self.height <= 10000,
            self.symbology != Symbology::Qr,
        ensures
            r is Ok <==> payload_admissible(self.symbology, self.payload@),
            r matches Err(e) ==> e == (EncodeError::UnsupportedPayload {
                symbology: self.symbology,
                reason: spec_payload_violation(self.symbology, self.payload@),
            }),
            r matches Ok(b) ==> {
                &&& b.wf()
                &&& b.height == self.height
                &&& b.format == PixelFormat::Rgba
                &&& b.width == linear_bits(self.symbology, self.payload@).len() * spec_xdim(
                    self.height,
                )
                &&& 1 <= b.width <= 20000
                &&& b.data@ == linear_raster(
                    linear_bits(self.symbology, self.payload@),
                    spec_xdim(self.height) as nat,
                    self.height as nat,
                )
            },
    {
        if let Some(violation) = validate_payload(self.symbology, self.payload.as_str()) {
            return Err(
                EncodeError::UnsupportedPayload { symbology: self.symbology, reason: violation },
            );
        }
        let bits = self.get_bytes();
        let xdim = self.xdim();
        proof {
            assert(self.payload@.len() <= 256);
            assert(bits@.len() <= 13 * 256 + 35);
        }
        let (width, data) = generate_linear_raster(&bits, xdim, self.height);
        Ok(PixelBuffer { width, height: self.height, format: PixelFormat::Rgba, data })
    }
}

} // verus!
