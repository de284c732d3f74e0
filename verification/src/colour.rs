//! CPU colour conversion from the captured `Abgr8888` frame (`[R, G, B, A]` per pixel) to the
//! planar YUV 4:2:0 layouts the encoders take: NV12 for the VAAPI upload (a luma plane, then
//! one plane of interleaved Cb/Cr pairs) and I420 for x264 (a luma plane, then a Cb plane and
//! a Cr plane).
//!
//! Both use the same integer BT.601 studio-swing (limited/TV range) coefficients, so the
//! hardware and software encoders produce matching colour:
//!
//! - `Y = ((66 R + 129 G + 25 B + 128) >> 8) + 16`
//! - `U = ((-38 R - 74 G + 112 B + 128) >> 8) + 128`
//! - `V = ((112 R - 94 G - 18 B + 128) >> 8) + 128`
//!
//! Chroma is taken from the mean of each 2×2 block of pixels.

use vstd::prelude::*;
use crate::capture::{at, lemma_at_layout};

verus! {

/// BT.601 limited-range luma of one pixel.
pub open spec fn luma(r: int, g: int, b: int) -> int {
    (66 * r + 129 * g + 25 * b + 128) / 256 + 16
}

/// BT.601 limited-range blue-difference chroma. `/` rounds toward negative infinity here, as
/// the arithmetic shift it stands for does.
pub open spec fn chroma_u(r: int, g: int, b: int) -> int {
    (-38 * r - 74 * g + 112 * b + 128) / 256 + 128
}

/// BT.601 limited-range red-difference chroma.
pub open spec fn chroma_v(r: int, g: int, b: int) -> int {
    (112 * r - 94 * g - 18 * b + 128) / 256 + 128
}

/// Channel `ch` (0 = R, 1 = G, 2 = B) of the pixel at `row`, `col` of an image `width` wide.
pub open spec fn px(rgba: Seq<u8>, width: int, row: int, col: int, ch: int) -> int {
    rgba[at(width, row, col) * 4 + ch] as int
}

/// Channel `ch` averaged over the 2×2 block whose top-left pixel is `2 row`, `2 col`, rounded
/// down.
pub open spec fn block(rgba: Seq<u8>, width: int, row: int, col: int, ch: int) -> int {
    (px(rgba, width, 2 * row, 2 * col, ch) + px(rgba, width, 2 * row, 2 * col + 1, ch) + px(
        rgba,
        width,
        2 * row + 1,
        2 * col,
        ch,
    ) + px(rgba, width, 2 * row + 1, 2 * col + 1, ch)) / 4
}

/// Luma of the pixel at `row`, `col`.
pub open spec fn y_of(rgba: Seq<u8>, width: int, row: int, col: int) -> int {
    luma(px(rgba, width, row, col, 0), px(rgba, width, row, col, 1), px(rgba, width, row, col, 2))
}

/// Blue-difference chroma of the 2×2 block at `row`, `col` of the half-resolution grid.
pub open spec fn u_of(rgba: Seq<u8>, width: int, row: int, col: int) -> int {
    chroma_u(block(rgba, width, row, col, 0), block(rgba, width, row, col, 1), block(rgba, width, row, col, 2))
}

/// Red-difference chroma of the 2×2 block at `row`, `col` of the half-resolution grid.
pub open spec fn v_of(rgba: Seq<u8>, width: int, row: int, col: int) -> int {
    chroma_v(block(rgba, width, row, col, 0), block(rgba, width, row, col, 1), block(rgba, width, row, col, 2))
}

/// Where the Cb byte of chroma block `row`, `col` sits in an NV12 buffer: after the luma
/// plane, in rows `width` bytes long, Cb then Cr.
pub open spec fn nv12_uv(width: int, height: int, row: int, col: int) -> int {
    width * height + at(width, row, 2 * col)
}

/// Whether the input holds every byte the conversion reads: all of the last pixel up to its
/// blue byte.
pub open spec fn input_fits(rgba: Seq<u8>, width: int, height: int) -> bool {
    &&& 4 * (width * height) <= usize::MAX
    &&& rgba.len() + 1 >= 4 * (width * height)
}

/// Whether `out` is the luma plane of `rgba` over its first `width * height` bytes.
pub open spec fn luma_plane(rgba: Seq<u8>, out: Seq<u8>, width: int, height: int) -> bool {
    forall|r: int, c: int|
        0 <= r < height && 0 <= c < width ==> out[#[trigger] at(width, r, c)] as int == y_of(rgba, width, r, c)
}

/// Whether `out` is the NV12 conversion of `rgba`.
pub open spec fn is_nv12(rgba: Seq<u8>, out: Seq<u8>, width: int, height: int) -> bool {
    &&& out.len() == width * height + width * (height / 2)
    &&& luma_plane(rgba, out, width, height)
    &&& forall|r: int, c: int|
        0 <= r < height / 2 && 0 <= c < width / 2 ==> {
            &&& out[#[trigger] nv12_uv(width, height, r, c)] as int == u_of(rgba, width, r, c)
            &&& out[nv12_uv(width, height, r, c) + 1] as int == v_of(rgba, width, r, c)
        }
    // An odd width leaves the last byte of each chroma row unused.
    &&& forall|r: int|
        0 <= r < height / 2 && width % 2 == 1 ==> out[width * height + #[trigger] at(width, r, width - 1)] == 0
}

/// Whether `out` is the I420 conversion of `rgba`.
pub open spec fn is_i420(rgba: Seq<u8>, out: Seq<u8>, width: int, height: int) -> bool {
    let uv = (width / 2) * (height / 2);
    &&& out.len() == width * height + 2 * uv
    &&& luma_plane(rgba, out, width, height)
    &&& forall|r: int, c: int|
        0 <= r < height / 2 && 0 <= c < width / 2 ==> {
            &&& out[width * height + #[trigger] at(width / 2, r, c)] as int == u_of(rgba, width, r, c)
            &&& out[width * height + uv + at(width / 2, r, c)] as int == v_of(rgba, width, r, c)
        }
}

/// The luma of one pixel, from its channel values.
fn luma_byte(r: u8, g: u8, b: u8) -> (y: u8)
    ensures
        y as int == luma(r as int, g as int, b as int),
{
    let sum: u32 = 66 * (r as u32) + 129 * (g as u32) + 25 * (b as u32) + 128;
    let y: u32 = sum / 256 + 16;
    y as u8
}

/// The blue-difference chroma of a block, from its averaged channel values.
fn chroma_u_byte(r: u32, g: u32, b: u32) -> (u: u8)
    requires
        r <= 255,
        g <= 255,
        b <= 255,
    ensures
        u as int == chroma_u(r as int, g as int, b as int),
{
    // The sum shifted up by 112 × 256 so it cannot go negative; the shift is taken back out
    // of the quotient.
    let shifted: u32 = (112 * b + 28800) - (38 * r + 74 * g);
    proof {
        let a = -38 * r - 74 * g + 112 * b + 128;
        assert(shifted == a + 112 * 256);
        assert((a + 112 * 256) / 256 == a / 256 + 112);
    }
    let u: u32 = shifted / 256 + 16;
    u as u8
}

/// The red-difference chroma of a block, from its averaged channel values.
fn chroma_v_byte(r: u32, g: u32, b: u32) -> (v: u8)
    requires
        r <= 255,
        g <= 255,
        b <= 255,
    ensures
        v as int == chroma_v(r as int, g as int, b as int),
{
    let shifted: u32 = (112 * r + 28800) - (94 * g + 18 * b);
    proof {
        let a = 112 * r - 94 * g - 18 * b + 128;
        assert(shifted == a + 112 * 256);
        assert((a + 112 * 256) / 256 == a / 256 + 112);
    }
    let v: u32 = shifted / 256 + 16;
    v as u8
}

/// The offsets of the first `rows` rows of an image `width` wide lie before `rows * width`,
/// and the input holds the blue byte of every pixel of the image.
proof fn lemma_pixel_bounds(rgba: Seq<u8>, width: int, height: int)
    requires
        width > 0,
        height >= 0,
        input_fits(rgba, width, height),
    ensures
        forall|r: int, c: int|
            0 <= r < height && 0 <= c < width ==> 0 <= #[trigger] at(width, r, c) && at(width, r, c) * 4 + 2
                < rgba.len() && at(width, r, c) * 4 + 3 <= 4 * (width * height),
{
    lemma_at_layout(width, height);
}

/// Write the luma plane of `rgba` into the first `width * height` bytes of a zeroed `out`.
fn write_luma(rgba: &[u8], width: usize, height: usize, out: &mut Vec<u8>)
    requires
        width > 0,
        input_fits(rgba@, width as int, height as int),
        old(out)@.len() >= width * height,
        forall|i: int| 0 <= i < old(out)@.len() ==> old(out)@[i] == 0,
    ensures
        final(out)@.len() == old(out)@.len(),
        luma_plane(rgba@, final(out)@, width as int, height as int),
        forall|i: int| width * height <= i < final(out)@.len() ==> final(out)@[i] == 0,
{
    let ghost w = width as int;
    let ghost h = height as int;
    let ghost n = out@.len();
    proof {
        lemma_at_layout(w, h);
        lemma_pixel_bounds(rgba@, w, h);
    }
    let mut row: usize = 0;
    while row < height
        invariant
            w == width,
            h == height,
            w > 0,
            row <= height,
            input_fits(rgba@, w, h),
            out@.len() == n,
            out@.len() >= w * h,
            forall|r1: int, c1: int, r2: int, c2: int|
                0 <= c1 < w && 0 <= c2 < w && #[trigger] at(w, r1, c1) == #[trigger] at(w, r2, c2) ==> r1
                    == r2 && c1 == c2,
            forall|r: int, c: int| 0 <= r < h && 0 <= c < w ==> 0 <= #[trigger] at(w, r, c) < h * w,
            forall|r: int, c: int|
                0 <= r < h && 0 <= c < w ==> 0 <= #[trigger] at(w, r, c) && at(w, r, c) * 4 + 2 < rgba@.len()
                    && at(w, r, c) * 4 + 3 <= 4 * (w * h),
            forall|r: int, c: int|
                0 <= r < row && 0 <= c < w ==> out@[#[trigger] at(w, r, c)] as int == y_of(rgba@, w, r, c),
            forall|i: int| row * w <= i < out@.len() ==> out@[i] == 0,
        decreases height - row,
    {
        let mut col: usize = 0;
        while col < width
            invariant
                w == width,
                h == height,
                w > 0,
                row < height,
                col <= width,
                input_fits(rgba@, w, h),
                out@.len() == n,
                out@.len() >= w * h,
                forall|r1: int, c1: int, r2: int, c2: int|
                    0 <= c1 < w && 0 <= c2 < w && #[trigger] at(w, r1, c1) == #[trigger] at(w, r2, c2)
                        ==> r1 == r2 && c1 == c2,
                forall|r: int, c: int| 0 <= r < h && 0 <= c < w ==> 0 <= #[trigger] at(w, r, c) < h * w,
                forall|r: int, c: int|
                    0 <= r < h && 0 <= c < w ==> 0 <= #[trigger] at(w, r, c) && at(w, r, c) * 4 + 2
                        < rgba@.len() && at(w, r, c) * 4 + 3 <= 4 * (w * h),
                forall|r: int, c: int|
                    0 <= r < h && 0 <= c < w && (r < row || (r == row && c < col)) ==> out@[#[trigger] at(
                        w,
                        r,
                        c,
                    )] as int == y_of(rgba@, w, r, c),
                forall|i: int| row * w + col <= i < out@.len() ==> out@[i] == 0,
            decreases width - col,
        {
            proof {
                assert(at(w, row as int, col as int) == row * w + col);
                assert(0 <= at(w, row as int, col as int) < h * w);
            }
            let idx: usize = row * width + col;
            let base: usize = idx * 4;
            let y = luma_byte(rgba[base], rgba[base + 1], rgba[base + 2]);
            out.set(idx, y);
            proof {
                assert forall|r: int, c: int|
                    0 <= r < h && 0 <= c < w && (r < row || (r == row && c < col + 1)) implies out@[#[trigger] at(
                        w,
                        r,
                        c,
                    )] as int == y_of(rgba@, w, r, c) by {
                    if r == row && c == col {
                    } else {
                        assert(at(w, r, c) != at(w, row as int, col as int));
                    }
                }
            }
            col = col + 1;
        }
        proof {
            assert((row + 1) * w == row * w + w) by (nonlinear_arith);
        }
        row = row + 1;
    }
    proof {
        assert(h * w == w * h) by (nonlinear_arith);
    }
}

/// Convert an `Abgr8888` buffer to a tightly packed NV12 buffer: `width * height` luma bytes
/// followed by `width * (height / 2)` bytes of interleaved Cb/Cr pairs.
pub fn rgba_to_nv12(rgba: &[u8], width: usize, height: usize) -> (out: Vec<u8>)
    requires
        input_fits(rgba@, width as int, height as int),
    ensures
        is_nv12(rgba@, out@, width as int, height as int),
{
    let ghost w = width as int;
    let ghost h = height as int;
    proof {
        assert(w * (h / 2) <= w * h) by (nonlinear_arith)
            requires
                w >= 0,
                h >= 0,
        ;
        assert(w * h >= 0) by (nonlinear_arith)
            requires
                w >= 0,
                h >= 0,
        ;
    }
    let y_size: usize = width * height;
    let uv_size: usize = width * (height / 2);
    let mut out: Vec<u8> = vec![0u8; y_size + uv_size];
    if width == 0 {
        proof {
            assert(y_size == 0 && uv_size == 0) by (nonlinear_arith)
                requires
                    w == 0,
                    y_size == w * h,
                    uv_size == w * (h / 2),
            ;
        }
        return out;
    }
    write_luma(rgba, width, height, &mut out);
    let ghost luma_done = out@;
    let half_h = height / 2;
    let half_w = width / 2;
    proof {
        lemma_at_layout(w, h);
        lemma_at_layout(w, h / 2);
        lemma_pixel_bounds(rgba@, w, h);
    }
    let mut row: usize = 0;
    while row < half_h
        invariant
            w == width,
            h == height,
            w > 0,
            half_h == h / 2,
            half_w == w / 2,
            y_size == w * h,
            uv_size == w * (h / 2),
            row <= half_h,
            input_fits(rgba@, w, h),
            out@.len() == y_size + uv_size,
            luma_plane(rgba@, out@, w, h),
            forall|r1: int, c1: int, r2: int, c2: int|
                0 <= c1 < w && 0 <= c2 < w && #[trigger] at(w, r1, c1) == #[trigger] at(w, r2, c2) ==> r1
                    == r2 && c1 == c2,
            forall|r: int, c: int| 0 <= r < h && 0 <= c < w ==> 0 <= #[trigger] at(w, r, c) < h * w,
            forall|r: int, c: int| 0 <= r < h / 2 && 0 <= c < w ==> 0 <= #[trigger] at(w, r, c) < (h / 2) * w,
            forall|r: int, c: int|
                0 <= r < h && 0 <= c < w ==> 0 <= #[trigger] at(w, r, c) && at(w, r, c) * 4 + 2 < rgba@.len()
                    && at(w, r, c) * 4 + 3 <= 4 * (w * h),
            forall|r: int, c: int|
                0 <= r < row && 0 <= c < w / 2 ==> {
                    &&& out@[#[trigger] nv12_uv(w, h, r, c)] as int == u_of(rgba@, w, r, c)
                    &&& out@[nv12_uv(w, h, r, c) + 1] as int == v_of(rgba@, w, r, c)
                },
            forall|r: int| 0 <= r < row && w % 2 == 1 ==> out@[w * h + #[trigger] at(w, r, w - 1)] == 0,
            forall|i: int| y_size + row * w <= i < out@.len() ==> out@[i] == 0,
        decreases half_h - row,
    {
        let mut col: usize = 0;
        while col < half_w
            invariant
                w == width,
                h == height,
                w > 0,
                half_h == h / 2,
                half_w == w / 2,
                y_size == w * h,
                uv_size == w * (h / 2),
                row < half_h,
                col <= half_w,
                input_fits(rgba@, w, h),
                out@.len() == y_size + uv_size,
                luma_plane(rgba@, out@, w, h),
                forall|r1: int, c1: int, r2: int, c2: int|
                    0 <= c1 < w && 0 <= c2 < w && #[trigger] at(w, r1, c1) == #[trigger] at(w, r2, c2)
                        ==> r1 == r2 && c1 == c2,
                forall|r: int, c: int| 0 <= r < h && 0 <= c < w ==> 0 <= #[trigger] at(w, r, c) < h * w,
                forall|r: int, c: int| 0 <= r < h / 2 && 0 <= c < w ==> 0 <= #[trigger] at(w, r, c) < (h / 2) * w,
                forall|r: int, c: int|
                    0 <= r < h && 0 <= c < w ==> 0 <= #[trigger] at(w, r, c) && at(w, r, c) * 4 + 2
                        < rgba@.len() && at(w, r, c) * 4 + 3 <= 4 * (w * h),
                forall|r: int, c: int|
                    0 <= r < h / 2 && 0 <= c < w / 2 && (r < row || (r == row && c < col)) ==> {
                        &&& out@[#[trigger] nv12_uv(w, h, r, c)] as int == u_of(rgba@, w, r, c)
                        &&& out@[nv12_uv(w, h, r, c) + 1] as int == v_of(rgba@, w, r, c)
                    },
                forall|r: int| 0 <= r < row && w % 2 == 1 ==> out@[w * h + #[trigger] at(w, r, w - 1)] == 0,
                forall|i: int| y_size + row * w + 2 * col <= i < out@.len() ==> out@[i] == 0,
            decreases half_w - col,
        {
            let (u, v) = block_uv(rgba, width, height, row, col);
            proof {
                assert(at(w, row as int, 2 * col) == row * w + 2 * col);
                assert(0 <= at(w, row as int, 2 * col + 1) < (h / 2) * w);
                assert((h / 2) * w == w * (h / 2)) by (nonlinear_arith);
            }
            let idx: usize = y_size + row * width + col * 2;
            out.set(idx, u);
            out.set(idx + 1, v);
            proof {
                assert forall|r: int, c: int|
                    0 <= r < h / 2 && 0 <= c < w / 2 && (r < row || (r == row && c < col + 1)) implies {
                        &&& out@[#[trigger] nv12_uv(w, h, r, c)] as int == u_of(rgba@, w, r, c)
                        &&& out@[nv12_uv(w, h, r, c) + 1] as int == v_of(rgba@, w, r, c)
                    } by {
                    if r == row && c == col {
                    } else {
                        assert(at(w, r, 2 * c) != at(w, row as int, 2 * col));
                        assert(at(w, r, 2 * c + 1) != at(w, row as int, 2 * col));
                        assert(at(w, r, 2 * c) != at(w, row as int, 2 * col + 1));
                        assert(at(w, r, 2 * c) + 1 == at(w, r, 2 * c + 1));
                        assert(at(w, row as int, 2 * col) + 1 == at(w, row as int, 2 * col + 1));
                    }
                }
                assert forall|r: int| 0 <= r < row && w % 2 == 1 implies out@[w * h + #[trigger] at(w, r, w - 1)] == 0 by {
                    assert(at(w, r, w - 1) != at(w, row as int, 2 * col));
                    assert(at(w, r, w - 1) != at(w, row as int, 2 * col + 1));
                    assert(at(w, row as int, 2 * col) + 1 == at(w, row as int, 2 * col + 1));
                }
            }
            col = col + 1;
        }
        proof {
            assert((row + 1) * w == row * w + w) by (nonlinear_arith);
            if w % 2 == 1 {
                assert(at(w, row as int, w - 1) == row * w + 2 * half_w);
            }
        }
        row = row + 1;
    }
    proof {
        assert forall|r: int| 0 <= r < h / 2 && w % 2 == 1 implies out@[w * h + #[trigger] at(w, r, w - 1)] == 0 by {
        }
    }
    out
}

/// The Cb and Cr bytes of the 2×2 block at `row`, `col` of the half-resolution grid.
fn block_uv(rgba: &[u8], width: usize, height: usize, row: usize, col: usize) -> (uv: (u8, u8))
    requires
        width > 0,
        row < height / 2,
        col < width / 2,
        input_fits(rgba@, width as int, height as int),
        forall|r: int, c: int|
            0 <= r < height && 0 <= c < width ==> 0 <= #[trigger] at(width as int, r, c) && at(width as int, r, c) * 4
                + 2 < rgba@.len() && at(width as int, r, c) * 4 + 3 <= 4 * (width * height),
    ensures
        uv.0 as int == u_of(rgba@, width as int, row as int, col as int),
        uv.1 as int == v_of(rgba@, width as int, row as int, col as int),
{
    let ghost w = width as int;
    let r0: usize = row * 2;
    let c0: usize = col * 2;
    proof {
        assert(at(w, r0 as int, c0 as int) * 4 + 2 < rgba@.len());
        assert(at(w, r0 as int, c0 as int + 1) * 4 + 2 < rgba@.len());
        assert(at(w, r0 as int + 1, c0 as int) * 4 + 2 < rgba@.len());
        assert(at(w, r0 as int + 1, c0 as int + 1) * 4 + 2 < rgba@.len());
        assert(at(w, r0 as int + 1, c0 as int) == at(w, r0 as int, c0 as int) + w) by (nonlinear_arith);
    }
    let p00: usize = (r0 * width + c0) * 4;
    let p01: usize = (r0 * width + c0 + 1) * 4;
    let p10: usize = ((r0 + 1) * width + c0) * 4;
    let p11: usize = ((r0 + 1) * width + c0 + 1) * 4;
    let r_sum: u32 = rgba[p00] as u32 + rgba[p01] as u32 + rgba[p10] as u32 + rgba[p11] as u32;
    let g_sum: u32 = rgba[p00 + 1] as u32 + rgba[p01 + 1] as u32 + rgba[p10 + 1] as u32 + rgba[p11 + 1] as u32;
    let b_sum: u32 = rgba[p00 + 2] as u32 + rgba[p01 + 2] as u32 + rgba[p10 + 2] as u32 + rgba[p11 + 2] as u32;
    let r: u32 = r_sum / 4;
    let g: u32 = g_sum / 4;
    let b: u32 = b_sum / 4;
    proof {
        assert(r == block(rgba@, w, row as int, col as int, 0));
        assert(g == block(rgba@, w, row as int, col as int, 1));
        assert(b == block(rgba@, w, row as int, col as int, 2));
    }
    (chroma_u_byte(r, g, b), chroma_v_byte(r, g, b))
}

/// Convert an `Abgr8888` buffer to planar I420: `width * height` luma bytes, then a Cb plane
/// and a Cr plane of `(width / 2) * (height / 2)` bytes each.
pub fn rgba_to_i420(rgba: &[u8], width: usize, height: usize) -> (out: Vec<u8>)
    requires
        input_fits(rgba@, width as int, height as int),
    ensures
        is_i420(rgba@, out@, width as int, height as int),
{
    let ghost w = width as int;
    let ghost h = height as int;
    proof {
        assert(2 * ((w / 2) * (h / 2)) <= w * h) by (nonlinear_arith)
            requires
                w >= 0,
                h >= 0,
        ;
        assert(w * h >= 0 && (w / 2) * (h / 2) >= 0) by (nonlinear_arith)
            requires
                w >= 0,
                h >= 0,
        ;
    }
    let y_size: usize = width * height;
    let uv_size: usize = (width / 2) * (height / 2);
    let mut out: Vec<u8> = vec![0u8; y_size + 2 * uv_size];
    if width == 0 {
        proof {
            assert(y_size == 0 && uv_size == 0) by (nonlinear_arith)
                requires
                    w == 0,
                    y_size == w * h,
                    uv_size == (w / 2) * (h / 2),
            ;
        }
        return out;
    }
    write_luma(rgba, width, height, &mut out);
    let half_h = height / 2;
    let half_w = width / 2;
    let ghost hw = w / 2;
    proof {
        lemma_pixel_bounds(rgba@, w, h);
        if hw > 0 {
            lemma_at_layout(hw, h / 2);
        }
    }
    let u_start: usize = y_size;
    let v_start: usize = y_size + uv_size;
    let mut row: usize = 0;
    while row < half_h
        invariant
            w == width,
            h == height,
            w > 0,
            hw == w / 2,
            half_h == h / 2,
            half_w == w / 2,
            y_size == w * h,
            uv_size == hw * (h / 2),
            u_start == y_size,
            v_start == y_size + uv_size,
            row <= half_h,
            input_fits(rgba@, w, h),
            out@.len() == y_size + 2 * uv_size,
            luma_plane(rgba@, out@, w, h),
            hw > 0 ==> forall|r1: int, c1: int, r2: int, c2: int|
                0 <= c1 < hw && 0 <= c2 < hw && #[trigger] at(hw, r1, c1) == #[trigger] at(hw, r2, c2) ==> r1
                    == r2 && c1 == c2,
            hw > 0 ==> forall|r: int, c: int| 0 <= r < h / 2 && 0 <= c < hw ==> 0 <= #[trigger] at(hw, r, c) < (h / 2) * hw,
            forall|r: int, c: int|
                0 <= r < h && 0 <= c < w ==> 0 <= #[trigger] at(w, r, c) && at(w, r, c) * 4 + 2 < rgba@.len()
                    && at(w, r, c) * 4 + 3 <= 4 * (w * h),
            forall|r: int, c: int|
                0 <= r < row && 0 <= c < hw ==> {
                    &&& out@[w * h + #[trigger] at(hw, r, c)] as int == u_of(rgba@, w, r, c)
                    &&& out@[w * h + uv_size + at(hw, r, c)] as int == v_of(rgba@, w, r, c)
                },
        decreases half_h - row,
    {
        let mut col: usize = 0;
        while col < half_w
            invariant
                w == width,
                h == height,
                w > 0,
                hw == w / 2,
                half_h == h / 2,
                half_w == w / 2,
                y_size == w * h,
                uv_size == hw * (h / 2),
                u_start == y_size,
                v_start == y_size + uv_size,
                row < half_h,
                col <= half_w,
                input_fits(rgba@, w, h),
                out@.len() == y_size + 2 * uv_size,
                luma_plane(rgba@, out@, w, h),
                hw > 0 ==> forall|r1: int, c1: int, r2: int, c2: int|
                    0 <= c1 < hw && 0 <= c2 < hw && #[trigger] at(hw, r1, c1) == #[trigger] at(hw, r2, c2)
                        ==> r1 == r2 && c1 == c2,
                hw > 0 ==> forall|r: int, c: int|
                    0 <= r < h / 2 && 0 <= c < hw ==> 0 <= #[trigger] at(hw, r, c) < (h / 2) * hw,
                forall|r: int, c: int|
                    0 <= r < h && 0 <= c < w ==> 0 <= #[trigger] at(w, r, c) && at(w, r, c) * 4 + 2
                        < rgba@.len() && at(w, r, c) * 4 + 3 <= 4 * (w * h),
                forall|r: int, c: int|
                    0 <= r < h / 2 && 0 <= c < hw && (r < row || (r == row && c < col)) ==> {
                        &&& out@[w * h + #[trigger] at(hw, r, c)] as int == u_of(rgba@, w, r, c)
                        &&& out@[w * h + uv_size + at(hw, r, c)] as int == v_of(rgba@, w, r, c)
                    },
            decreases half_w - col,
        {
            let (u, v) = block_uv(rgba, width, height, row, col);
            proof {
                assert(at(hw, row as int, col as int) == row * hw + col);
                assert(0 <= at(hw, row as int, col as int) < (h / 2) * hw);
                assert((h / 2) * hw == hw * (h / 2)) by (nonlinear_arith);
                assert(out@.len() == out.len());
            }
            let idx: usize = row * half_w + col;
            out.set(u_start + idx, u);
            out.set(v_start + idx, v);
            proof {
                assert forall|r: int, c: int|
                    0 <= r < h / 2 && 0 <= c < hw && (r < row || (r == row && c < col + 1)) implies {
                        &&& out@[w * h + #[trigger] at(hw, r, c)] as int == u_of(rgba@, w, r, c)
                        &&& out@[w * h + uv_size + at(hw, r, c)] as int == v_of(rgba@, w, r, c)
                    } by {
                    assert(0 <= at(hw, r, c) < (h / 2) * hw);
                    if r == row && c == col {
                    } else {
                        assert(at(hw, r, c) != at(hw, row as int, col as int));
                    }
                }
            }
            col = col + 1;
        }
        row = row + 1;
    }
    out
}

/// Studio swing: whatever the 8-bit input, luma stays within `[16, 235]` and both chroma
/// samples within `[16, 240]`, so every sample fits a byte.
pub proof fn law_samples_stay_in_studio_range(r: int, g: int, b: int)
    requires
        0 <= r <= 255,
        0 <= g <= 255,
        0 <= b <= 255,
    ensures
        16 <= luma(r, g, b) <= 235,
        16 <= chroma_u(r, g, b) <= 240,
        16 <= chroma_v(r, g, b) <= 240,
{
}

/// A grey pixel, any shade, carries no colour: both chroma samples are the neutral 128, and
/// black and white sit at the ends of the luma range.
pub proof fn law_grey_has_no_colour(v: int)
    requires
        0 <= v <= 255,
    ensures
        chroma_u(v, v, v) == 128,
        chroma_v(v, v, v) == 128,
        luma(0, 0, 0) == 16,
        luma(255, 255, 255) == 235,
{
}

/// NV12 and I420 carry the same samples: converted from one picture, their luma planes are
/// byte for byte the same, and each chroma block's Cb and Cr, interleaved in NV12, are the
/// bytes of I420's separate Cb and Cr planes.
pub proof fn law_nv12_and_i420_carry_the_same_samples(
    rgba: Seq<u8>,
    nv12: Seq<u8>,
    i420: Seq<u8>,
    width: int,
    height: int,
)
    requires
        is_nv12(rgba, nv12, width, height),
        is_i420(rgba, i420, width, height),
    ensures
        forall|r: int, c: int|
            0 <= r < height && 0 <= c < width ==> nv12[#[trigger] at(width, r, c)] == i420[at(width, r, c)],
        forall|r: int, c: int|
            0 <= r < height / 2 && 0 <= c < width / 2 ==> {
                &&& nv12[#[trigger] nv12_uv(width, height, r, c)] == i420[width * height + at(width / 2, r, c)]
                &&& nv12[nv12_uv(width, height, r, c) + 1] == i420[width * height + (width / 2) * (height / 2)
                    + at(width / 2, r, c)]
            },
{
    assert forall|r: int, c: int| 0 <= r < height / 2 && 0 <= c < width / 2 implies {
        &&& nv12[#[trigger] nv12_uv(width, height, r, c)] == i420[width * height + at(width / 2, r, c)]
        &&& nv12[nv12_uv(width, height, r, c) + 1] == i420[width * height + (width / 2) * (height / 2)
            + at(width / 2, r, c)]
    } by {
        assert(i420[width * height + at(width / 2, r, c)] as int == u_of(rgba, width, r, c));
    }
}

} // verus!
