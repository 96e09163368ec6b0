//! The raster data model shared by all symbol encoders.

use vstd::prelude::*;

verus! {

/// Pixel layout of a raster buffer: single-channel luminance or
/// four-channel RGBA.
#[derive(Clone, Copy, Debug, PartialEq, Eq, Structural)]
pub enum PixelFormat {
    /// One byte per pixel, 0 = black, 255 = white.
    Gray,
    /// Four bytes per pixel: red, green, blue, alpha.
    Rgba,
}

impl PixelFormat {
    /// Bytes per pixel.
    pub open spec fn spec_channels(self) -> nat {
        match self {
            PixelFormat::Gray => 1,
            PixelFormat::Rgba => 4,
        }
    }

    /// Bytes per pixel.
    pub fn channels(self) -> (r: usize)
        ensures
            r == self.spec_channels(),
    {
        match self {
            PixelFormat::Gray => 1,
            PixelFormat::Rgba => 4,
        }
    }
}

/// A two-dimensional raster image, row-major, owned by one request from the
/// moment an encoder produces it until it is serialized.
#[derive(Debug)]
pub struct PixelBuffer {
    pub width: u32,
    pub height: u32,
    pub format: PixelFormat,
    pub data: Vec<u8>,
}

impl PixelBuffer {
    /// The data vector holds exactly one value per channel of every pixel.
    pub open spec fn wf(self) -> bool {
        self.data@.len() == self.width * self.height * self.format.spec_channels()
    }

    /// Assembles a buffer from its parts, checking that the data length
    /// matches the dimensions.
    pub fn from_raw(width: u32, height: u32, format: PixelFormat, data: Vec<u8>) -> (r: Option<
        PixelBuffer,
    >)
        ensures
            match r {
                Some(b) => b.wf() && b.width == width && b.height == height && b.format == format
                    && b.data@ == data@,
                None => data@.len() != width * height * format.spec_channels(),
            },
    {
        let channels = format.channels();
        proof {
            let w = width as int;
            let h = height as int;
            let c = channels as int;
            assert(w * h <= 0xffff_ffff * 0xffff_ffff) by (nonlinear_arith)
                requires
                    0 <= w <= 0xffff_ffff,
                    0 <= h <= 0xffff_ffff,
            ;
            assert(w * h * c <= 0xffff_ffff * 0xffff_ffff * 4) by (nonlinear_arith)
                requires
                    0 <= w * h <= 0xffff_ffff * 0xffff_ffff,
                    0 <= c <= 4,
            ;
        }
        if data.len() as u128 == width as u128 * height as u128 * channels as u128 {
            Some(PixelBuffer { width, height, format, data })
        } else {
            None
        }
    }
}

} // verus!
