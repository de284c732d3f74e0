//! Host-memory capture: the pixel read back from the GPU arrives as tightly packed `Abgr8888`
//! rows, `[R, G, B, A]` per pixel. GL reads rows bottom-up, so when the read-back was not
//! already flipped the rows are reversed here, putting row 0 at the top of the image.

use vstd::prelude::*;

verus! {

/// The flat offset of column `c` in row `r` of rows `stride` bytes long.
pub open spec fn at(stride: int, r: int, c: int) -> int {
    r * stride + c
}

/// Distinct row and column pairs inside a row name distinct offsets, and every offset of the
/// first `rows` rows lies before `rows * stride`.
pub proof fn lemma_at_layout(stride: int, rows: int)
    requires
        stride > 0,
    ensures
        forall|r1: int, c1: int, r2: int, c2: int|
            0 <= c1 < stride && 0 <= c2 < stride && #[trigger] at(stride, r1, c1) == #[trigger] at(stride, r2, c2)
                ==> r1 == r2 && c1 == c2,
        forall|r: int, c: int|
            0 <= r < rows && 0 <= c < stride ==> 0 <= #[trigger] at(stride, r, c) < rows * stride,
{
    assert forall|r1: int, c1: int, r2: int, c2: int|
        0 <= c1 < stride && 0 <= c2 < stride && #[trigger] at(stride, r1, c1) == #[trigger] at(stride, r2, c2)
        implies r1 == r2 && c1 == c2 by {
        if r1 < r2 {
            assert(r1 * stride + stride <= r2 * stride) by (nonlinear_arith)
                requires
                    r1 < r2,
                    stride > 0,
            ;
        } else if r2 < r1 {
            assert(r2 * stride + stride <= r1 * stride) by (nonlinear_arith)
                requires
                    r2 < r1,
                    stride > 0,
            ;
        }
    }
    assert forall|r: int, c: int| 0 <= r < rows && 0 <= c < stride implies 0 <= #[trigger] at(stride, r, c) < rows * stride by {
        assert(0 <= r * stride && r * stride + stride <= rows * stride) by (nonlinear_arith)
            requires
                0 <= r < rows,
                stride > 0,
        ;
    }
}

/// Whether `out` is `data` with its first `height` rows of `4 * width` bytes in reverse order
/// and everything after them untouched.
pub open spec fn rows_reversed(data: Seq<u8>, out: Seq<u8>, width: int, height: int) -> bool {
    let stride = 4 * width;
    &&& out.len() == data.len()
    &&& forall|r: int, c: int|
        0 <= r < height && 0 <= c < stride ==> out[#[trigger] at(stride, r, c)] == data[at(
            stride,
            height - 1 - r,
            c,
        )]
    &&& forall|i: int| height * stride <= i < data.len() ==> out[i] == data[i]
}

/// Reverse the row order of a tightly packed ABGR image in place.
///
/// Every row must be present once there are two rows to exchange.
pub fn flip_rows(data: Vec<u8>, width: usize, height: usize) -> (out: Vec<u8>)
    requires
        4 * width <= usize::MAX,
        height >= 2 ==> data@.len() >= height * (4 * width),
    ensures
        rows_reversed(data@, out@, width as int, height as int),
{
    let mut data = data;
    let ghost orig = data@;
    let stride: usize = width * 4;
    let ghost s = stride as int;
    let ghost h = height as int;
    if stride == 0 || height < 2 {
        proof {
            assert forall|r: int, c: int| 0 <= r < h && 0 <= c < s implies data@[#[trigger] at(s, r, c)] == orig[at(s, h - 1 - r, c)] by {
                assert(r == 0 && h == 1);
            }
        }
        return data;
    }
    proof {
        lemma_at_layout(s, h);
        assert(h * s <= data@.len());
        assert(data@.len() == data.len());
    }
    let half = height / 2;
    let mut row: usize = 0;
    while row < half
        invariant
            s == stride,
            s > 0,
            h == height,
            h >= 2,
            half == height / 2,
            row <= half,
            h * s <= orig.len(),
            orig.len() <= usize::MAX,
            data@.len() == orig.len(),
            forall|r1: int, c1: int, r2: int, c2: int|
                0 <= c1 < s && 0 <= c2 < s && #[trigger] at(s, r1, c1) == #[trigger] at(s, r2, c2)
                    ==> r1 == r2 && c1 == c2,
            forall|r: int, c: int| 0 <= r < h && 0 <= c < s ==> 0 <= #[trigger] at(s, r, c) < h * s,
            forall|r: int, c: int|
                0 <= r < h && 0 <= c < s ==> data@[#[trigger] at(s, r, c)] == if r < row || r >= h - row {
                    orig[at(s, h - 1 - r, c)]
                } else {
                    orig[at(s, r, c)]
                },
            forall|i: int| h * s <= i < orig.len() ==> data@[i] == orig[i],
        decreases half - row,
    {
        proof {
            assert(row * s < h * s && (h - 1 - row) * s < h * s) by (nonlinear_arith)
                requires
                    row < h,
                    h - 1 - row < h,
                    0 <= row,
                    0 <= h - 1 - row,
                    s > 0,
            ;
            assert(at(s, row as int, 0) == row * s);
            assert(at(s, h - 1 - row, 0) == (h - 1 - row) * s);
            assert(row * s + s <= h * s && (h - 1 - row) * s + s <= h * s) by (nonlinear_arith)
                requires
                    row < h,
                    h - 1 - row < h,
                    0 <= row,
                    s > 0,
            ;
        }
        let top: usize = row * stride;
        let bot: usize = (height - 1 - row) * stride;
        let mut col: usize = 0;
        while col < stride
            invariant
                s == stride,
                s > 0,
                h == height,
                h >= 2,
                half == height / 2,
                row < half,
                col <= stride,
                top == row * s,
                bot == (h - 1 - row) * s,
                top + s <= h * s,
                bot + s <= h * s,
                h * s <= orig.len(),
                orig.len() <= usize::MAX,
                data@.len() == orig.len(),
                forall|r1: int, c1: int, r2: int, c2: int|
                    0 <= c1 < s && 0 <= c2 < s && #[trigger] at(s, r1, c1) == #[trigger] at(s, r2, c2)
                        ==> r1 == r2 && c1 == c2,
                forall|r: int, c: int| 0 <= r < h && 0 <= c < s ==> 0 <= #[trigger] at(s, r, c) < h * s,
                forall|r: int, c: int|
                    0 <= r < h && 0 <= c < s ==> data@[#[trigger] at(s, r, c)] == if r < row || r >= h
                        - row || ((r == row || r == h - 1 - row) && c < col) {
                        orig[at(s, h - 1 - r, c)]
                    } else {
                        orig[at(s, r, c)]
                    },
                forall|i: int| h * s <= i < orig.len() ==> data@[i] == orig[i],
            decreases stride - col,
        {
            let a = data[top + col];
            let b = data[bot + col];
            proof {
                assert(top + col == at(s, row as int, col as int));
                assert(bot + col == at(s, h - 1 - row, col as int));
            }
            data.set(top + col, b);
            data.set(bot + col, a);
            col = col + 1;
        }
        row = row + 1;
    }
    proof {
        assert forall|r: int, c: int| 0 <= r < h && 0 <= c < s implies data@[#[trigger] at(s, r, c)] == orig[at(s, h - 1 - r, c)] by {
            if !(r < row || r >= h - row) {
                assert(h % 2 == 1 && r == h / 2);
            }
        }
    }
    data
}

/// Flipping is its own inverse: flipping the rows of a flipped image gives back the image.
pub proof fn law_flip_twice_is_identity(data: Seq<u8>, once: Seq<u8>, twice: Seq<u8>, width: int, height: int)
    requires
        width >= 0,
        height >= 0,
        rows_reversed(data, once, width, height),
        rows_reversed(once, twice, width, height),
    ensures
        twice == data,
{
    let s = 4 * width;
    if s > 0 {
        lemma_at_layout(s, height);
        assert forall|i: int| 0 <= i < data.len() implies twice[i] == data[i] by {
            if i < height * s {
                let r = i / s;
                let c = i % s;
                vstd::arithmetic::div_mod::lemma_fundamental_div_mod(i, s);
                assert(i == at(s, r, c)) by {
                    assert(i == s * r + c);
                    vstd::arithmetic::mul::lemma_mul_is_commutative(s, r);
                }
                assert(0 <= c < s);
                assert(0 <= r < height) by {
                    if r >= height {
                        assert(r * s >= height * s) by (nonlinear_arith)
                            requires
                                r >= height,
                                s > 0,
                        ;
                    }
                    if r < 0 {
                        assert(r * s < 0) by (nonlinear_arith)
                            requires
                                r < 0,
                                s > 0,
                        ;
                    }
                }
                assert(twice[at(s, r, c)] == once[at(s, height - 1 - r, c)]);
                assert(0 <= height - 1 - r < height);
                assert(once[at(s, height - 1 - r, c)] == data[at(s, height - 1 - (height - 1 - r), c)]);
                assert(height - 1 - (height - 1 - r) == r);
                assert(twice[i] == data[i]);
            } else {
                assert(twice[i] == once[i]);
            }
        }
    } else {
        assert(height * s == 0) by (nonlinear_arith)
            requires
                s == 0,
        ;
    }
    assert(twice =~= data);
}

/// A captured image the right way up. GL reads pixels bottom row first; the read-back says
/// whether it already flipped them, and if it did not, the rows are reversed here.
pub fn upright(data: Vec<u8>, width: usize, height: usize, flipped: bool) -> (out: Vec<u8>)
    requires
        4 * width <= usize::MAX,
        height >= 2 ==> data@.len() >= height * (4 * width),
    ensures
        flipped ==> out@ == data@,
        !flipped ==> rows_reversed(data@, out@, width as int, height as int),
{
    if flipped {
        data
    } else {
        flip_rows(data, width, height)
    }
}

} // verus!
