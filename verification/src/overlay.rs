//! Caption compositing: a rendered text strip is laid beneath a symbol
//! raster, growing the canvas instead of overwriting symbol pixels.
//!
//! The strip arrives as a grayscale raster (the host rasterizes glyphs with
//! its font); compositing itself is verified byte by byte.

use vstd::prelude::*;

use crate::pixel::{PixelBuffer, PixelFormat};
use vstd::arithmetic::div_mod::{
    lemma_fundamental_div_mod_converse_div, lemma_fundamental_div_mod_converse_mod,
};

verus! {

/// Width of the composite: the wider of base and caption.
pub open spec fn composed_width(bw: int, cw: int) -> int {
    if bw >= cw {
        bw
    } else {
        cw
    }
}

/// The byte of the composite's upper region at column `x`, row `y`, channel
/// `k`: the base raster's byte, white beyond the base's width `bw`.
pub open spec fn base_byte(bw: int, ch: int, bdata: Seq<u8>, x: int, y: int, k: int) -> u8 {
    if x < bw {
        bdata[(y * bw + x) * ch + k]
    } else {
        255u8
    }
}

/// The byte a grayscale caption strip of width `cw` contributes at column
/// `x`, caption row `cy`, channel `k` of a raster of format `fmt`: the
/// strip's value on every color channel, an opaque alpha, white beyond the
/// strip's width.
pub open spec fn caption_byte(
    cw: int,
    cdata: Seq<u8>,
    fmt: PixelFormat,
    x: int,
    cy: int,
    k: int,
) -> u8 {
    if x < cw {
        if fmt == PixelFormat::Rgba && k == 3 {
            255u8
        } else {
            cdata[cy * cw + x]
        }
    } else {
        255u8
    }
}

/// The composite's byte at column `x`, row `y`, channel `k`: base rows
/// first, caption rows beneath.
pub open spec fn composed_byte(
    bw: int,
    bh: int,
    fmt: PixelFormat,
    bdata: Seq<u8>,
    cw: int,
    cdata: Seq<u8>,
    x: int,
    y: int,
    k: int,
) -> u8 {
    if y < bh {
        base_byte(bw, fmt.spec_channels() as int, bdata, x, y, k)
    } else {
        caption_byte(cw, cdata, fmt, x, y - bh, k)
    }
}

/// All pixel bytes of the composite, row-major, in the base's format: a base
/// raster of `bw`×`bh` with bytes `bdata`, grown beneath by a grayscale
/// caption strip of `cw`×`chgt` with bytes `cdata`.
pub open spec fn composed_data(
    bw: int,
    bh: int,
    fmt: PixelFormat,
    bdata: Seq<u8>,
    cw: int,
    chgt: int,
    cdata: Seq<u8>,
) -> Seq<u8> {
    let w = composed_width(bw, cw);
    let ch = fmt.spec_channels() as int;
    Seq::new(
        (((bh + chgt) * w) * ch) as nat,
        |i: int| composed_byte(bw, bh, fmt, bdata, cw, cdata, (i / ch) % w, (i / ch) / w, i % ch),
    )
}

/// Bounds of a row-major pixel index: it addresses inside the raster and
/// stays well below the smallest machine word.
proof fn lemma_pixel_index_bounds(y: int, x: int, k: int, w: int, h: int, ch: int)
    by (nonlinear_arith)
    requires
        0 <= y < h,
        0 <= x < w,
        0 <= k < ch,
        w <= 20000,
        h <= 22000,
        1 <= ch <= 4,
    ensures
        0 <= (y * w + x) * ch + k,
        (y * w + x) * ch + k < h * w * ch,
        (y * w + x) * ch + k < 0x8000_0000,
        0 <= y * w + x < h * w,
{
}

/// Lays a grayscale caption strip beneath a raster. The result keeps the
/// base's format, is as wide as the wider of the two, exactly as tall as
/// both together, shows the base's pixels unchanged above (white right of a
/// narrower base) and the strip beneath (white right of a narrower strip).
pub fn compose_caption(base: &PixelBuffer, caption: &PixelBuffer) -> (r: PixelBuffer)
    requires
        base.wf(),
        caption.wf(),
        caption.format == PixelFormat::Gray,
        1 <= base.width <= 20000,
        1 <= base.height <= 20000,
        caption.width <= 20000,
        caption.height <= 2000,
    ensures
        r.wf(),
        r.format == base.format,
        r.width == composed_width(base.width as int, caption.width as int),
        r.height == base.height + caption.height,
        r.data@ == composed_data(
            base.width as int,
            base.height as int,
            base.format,
            base.data@,
            caption.width as int,
            caption.height as int,
            caption.data@,
        ),
{
    let ghost target = composed_data(
        base.width as int,
        base.height as int,
        base.format,
        base.data@,
        caption.width as int,
        caption.height as int,
        caption.data@,
    );
    let w: u32 = if base.width >= caption.width {
        base.width
    } else {
        caption.width
    };
    let h: u32 = base.height + caption.height;
    let ch: usize = base.format.channels();
    let mut data: Vec<u8> = Vec::new();
    let mut y: u32 = 0;
    while y < h
        invariant
            base.wf(),
            caption.wf(),
            caption.format == PixelFormat::Gray,
            1 <= base.width <= 20000,
            1 <= base.height <= 20000,
            caption.width <= 20000,
            caption.height <= 2000,
            w == composed_width(base.width as int, caption.width as int),
            h == base.height + caption.height,
            ch == base.format.spec_channels(),
            target == composed_data(
                base.width as int,
                base.height as int,
                base.format,
                base.data@,
                caption.width as int,
                caption.height as int,
                caption.data@,
            ),
            y <= h,
            data@.len() == y * w * ch,
            forall|j: int| 0 <= j < data@.len() ==> data@[j] == target[j],
        decreases h - y,
    {
        let mut x: u32 = 0;
        while x < w
            invariant
                base.wf(),
                caption.wf(),
                caption.format == PixelFormat::Gray,
                1 <= base.width <= 20000,
                1 <= base.height <= 20000,
                caption.width <= 20000,
                caption.height <= 2000,
                w == composed_width(base.width as int, caption.width as int),
                h == base.height + caption.height,
                ch == base.format.spec_channels(),
                target == composed_data(
                    base.width as int,
                    base.height as int,
                    base.format,
                    base.data@,
                    caption.width as int,
                    caption.height as int,
                    caption.data@,
                ),
                y < h,
                x <= w,
                data@.len() == (y * w + x) * ch,
                forall|j: int| 0 <= j < data@.len() ==> data@[j] == target[j],
            decreases w - x,
        {
            let mut k: usize = 0;
            while k < ch
                invariant
                    base.wf(),
                    caption.wf(),
                    caption.format == PixelFormat::Gray,
                    1 <= base.width <= 20000,
                    1 <= base.height <= 20000,
                    caption.width <= 20000,
                    caption.height <= 2000,
                    w == composed_width(base.width as int, caption.width as int),
                    h == base.height + caption.height,
                    ch == base.format.spec_channels(),
                    target == composed_data(
                        base.width as int,
                        base.height as int,
                        base.format,
                        base.data@,
                        caption.width as int,
                        caption.height as int,
                        caption.data@,
                    ),
                    y < h,
                    x < w,
                    k <= ch,
                    data@.len() == (y * w + x) * ch + k,
                    forall|j: int| 0 <= j < data@.len() ==> data@[j] == target[j],
                decreases ch - k,
            {
                let v: u8;
                if y < base.height {
                    if x < base.width {
                        proof {
                            lemma_pixel_index_bounds(
                                y as int,
                                x as int,
                                k as int,
                                base.width as int,
                                base.height as int,
                                ch as int,
                            );
                        }
                        let idx = ((y as usize) * (base.width as usize) + (x as usize)) * ch + k;
                        v = base.data[idx];
                    } else {
                        v = 255;
                    }
                } else {
                    let cy = y - base.height;
                    if x < caption.width {
                        proof {
                            lemma_pixel_index_bounds(
                                cy as int,
                                x as int,
                                0,
                                caption.width as int,
                                caption.height as int,
                                1,
                            );
                        }
                        let idx = (cy as usize) * (caption.width as usize) + (x as usize);
                        let cv = caption.data[idx];
                        v = if ch == 4 && k == 3 {
                            255
                        } else {
                            cv
                        };
                    } else {
                        v = 255;
                    }
                }
                proof {
                    let iw = w as int;
                    let ich = ch as int;
                    let p = (y as int) * iw + (x as int);
                    let i = p * ich + (k as int);
                    lemma_pixel_index_bounds(y as int, x as int, k as int, iw, h as int, ich);
                    lemma_fundamental_div_mod_converse_div(i, ich, p, k as int);
                    lemma_fundamental_div_mod_converse_mod(i, ich, p, k as int);
                    lemma_fundamental_div_mod_converse_div(p, iw, y as int, x as int);
                    lemma_fundamental_div_mod_converse_mod(p, iw, y as int, x as int);
                    assert(target[i] == composed_byte(
                        base.width as int,
                        base.height as int,
                        base.format,
                        base.data@,
                        caption.width as int,
                        caption.data@,
                        x as int,
                        y as int,
                        k as int,
                    ));
                }
                data.push(v);
                k = k + 1;
            }
            proof {
                let p = (y as int) * (w as int) + (x as int);
                assert((p + 1) * (ch as int) == p * (ch as int) + (ch as int)) by (nonlinear_arith);
            }
            x = x + 1;
        }
        proof {
            let iw = w as int;
            let ich = ch as int;
            let iy = y as int;
            assert(((iy + 1) * iw) * ich == (iy * iw + iw) * ich) by (nonlinear_arith);
        }
        y = y + 1;
    }
    proof {
        assert((h as int) * (w as int) * (ch as int) == target.len());
        assert(data@ =~= target);
        assert((w as int) * (h as int) * (ch as int) == (h as int) * (w as int) * (ch as int))
            by (nonlinear_arith);
    }
    PixelBuffer { width: w, height: h, format: base.format, data }
}

} // verus!
