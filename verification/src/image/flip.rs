//! The index arithmetic of mirroring an image, and its laws.
use vstd::prelude::*;
use vstd::arithmetic::div_mod::{lemma_fundamental_div_mod, lemma_fundamental_div_mod_converse};

verus! {

/// Where the byte at index `i` of the mirrored image comes from, in an image of
/// `w` by `h` pixels of `s` bytes each: pixel `(x, y)` takes pixel
/// `(w - 1 - x, y)` if `fx`, and `(x, h - 1 - y)` if `fy`, byte `k` of a pixel
/// staying byte `k`.
pub open spec fn flip_source(w: int, h: int, s: int, fx: bool, fy: bool, i: int) -> int {
    let p = i / s;
    let k = i % s;
    let x = p % w;
    let y = p / w;
    let ox = if fx { w - 1 - x } else { x };
    let oy = if fy { h - 1 - y } else { y };
    (oy * w + ox) * s + k
}

/// The bytes of `data` mirrored: the first `w * h * s` bytes hold the mirrored
/// pixels, the bytes after them are zero.
pub open spec fn spec_flip(data: Seq<u8>, w: int, h: int, s: int, fx: bool, fy: bool) -> Seq<u8> {
    Seq::new(
        data.len(),
        |i: int|
            if i < w * h * s {
                data[flip_source(w, h, s, fx, fy, i)]
            } else {
                0u8
            },
    )
}

/// The index of byte `k` of pixel `(x, y)` splits back into `x`, `y` and `k`.
pub(crate) proof fn lemma_pixel_index(w: int, h: int, s: int, x: int, y: int, k: int)
    requires
        0 <= x < w,
        0 <= y < h,
        0 <= k < s,
    ensures
        ((y * w + x) * s + k) / s == y * w + x,
        ((y * w + x) * s + k) % s == k,
        (y * w + x) / w == y,
        (y * w + x) % w == x,
        0 <= (y * w + x) * s + k < w * h * s,
        0 <= y * w + x < w * h,
{
    lemma_fundamental_div_mod_converse((y * w + x) * s + k, s, y * w + x, k);
    lemma_fundamental_div_mod_converse(y * w + x, w, y, x);
    assert(0 <= y * w + x < w * h) by (nonlinear_arith)
        requires
            0 <= x < w,
            0 <= y < h,
    ;
    assert(0 <= (y * w + x) * s + k < w * h * s) by (nonlinear_arith)
        requires
            0 <= y * w + x < w * h,
            0 <= k < s,
    ;
}

/// An index below `w * h * s` is byte `i % s` of pixel `((i / s) % w, (i / s) / w)`.
proof fn lemma_index_parts(w: int, h: int, s: int, i: int)
    requires
        w > 0,
        h > 0,
        s > 0,
        0 <= i < w * h * s,
    ensures
        0 <= (i / s) % w < w,
        0 <= (i / s) / w < h,
        0 <= i % s < s,
        i == (((i / s) / w) * w + (i / s) % w) * s + i % s,
{
    let p = i / s;
    lemma_fundamental_div_mod(i, s);
    lemma_fundamental_div_mod(p, w);
    assert(i == (p / w * w + p % w) * s + i % s) by (nonlinear_arith)
        requires
            i == s * p + i % s,
            p == w * (p / w) + p % w,
    ;
    assert(0 <= p < w * h) by (nonlinear_arith)
        requires
            0 <= i < w * h * s,
            p == i / s,
            s > 0,
    ;
    assert(0 <= p / w < h) by (nonlinear_arith)
        requires
            0 <= p < w * h,
            w > 0,
    ;
}

/// The source of each byte of the first `w * h * s` lies among them, and is the
/// byte of the same place in the mirrored pixel.
pub(crate) proof fn lemma_flip_source(w: int, h: int, s: int, fx: bool, fy: bool, x: int, y: int, k: int)
    requires
        0 <= x < w,
        0 <= y < h,
        0 <= k < s,
    ensures
        flip_source(w, h, s, fx, fy, (y * w + x) * s + k) == ((if fy { h - 1 - y } else { y }) * w
            + (if fx { w - 1 - x } else { x })) * s + k,
        0 <= flip_source(w, h, s, fx, fy, (y * w + x) * s + k) < w * h * s,
{
    lemma_pixel_index(w, h, s, x, y, k);
    let ox = if fx { w - 1 - x } else { x };
    let oy = if fy { h - 1 - y } else { y };
    lemma_pixel_index(w, h, s, ox, oy, k);
}

/// Mirroring keeps the length; byte `k` of pixel `(x, y)` of the mirrored image is
/// byte `k` of pixel `(w - 1 - x, y)` where mirrored horizontally and of
/// `(x, h - 1 - y)` where mirrored vertically, and the bytes after the pixels are zero.
pub proof fn lemma_flip_pixels(
    data: Seq<u8>,
    w: int,
    h: int,
    s: int,
    fx: bool,
    fy: bool,
    x: int,
    y: int,
    k: int,
    i: int,
)
    requires
        w * h * s <= data.len(),
        0 <= x < w,
        0 <= y < h,
        0 <= k < s,
    ensures
        spec_flip(data, w, h, s, fx, fy).len() == data.len(),
        spec_flip(data, w, h, s, fx, fy)[(y * w + x) * s + k] == data[((if fy {
            h - 1 - y
        } else {
            y
        }) * w + (if fx {
            w - 1 - x
        } else {
            x
        })) * s + k],
        w * h * s <= i < data.len() ==> spec_flip(data, w, h, s, fx, fy)[i] == 0u8,
{
    lemma_flip_source(w, h, s, fx, fy, x, y, k);
    lemma_pixel_index(w, h, s, x, y, k);
}

/// Mirroring twice is mirroring once by the flags that differ: mirroring along an
/// axis twice gives that axis back.
pub proof fn lemma_flip_compose(
    data: Seq<u8>,
    w: int,
    h: int,
    s: int,
    fx1: bool,
    fy1: bool,
    fx2: bool,
    fy2: bool,
)
    requires
        w >= 0,
        h >= 0,
        s > 0,
        w * h * s <= data.len(),
    ensures
        spec_flip(spec_flip(data, w, h, s, fx1, fy1), w, h, s, fx2, fy2) == spec_flip(
            data,
            w,
            h,
            s,
            fx1 != fx2,
            fy1 != fy2,
        ),
{
    let once = spec_flip(data, w, h, s, fx1, fy1);
    let twice = spec_flip(once, w, h, s, fx2, fy2);
    let direct = spec_flip(data, w, h, s, fx1 != fx2, fy1 != fy2);
    assert forall|i: int| 0 <= i < twice.len() implies twice[i] == direct[i] by {
        if i < w * h * s {
            assert(w > 0 && h > 0) by (nonlinear_arith)
                requires
                    0 <= i < w * h * s,
                    w >= 0,
                    h >= 0,
                    s > 0,
            ;
            lemma_index_parts(w, h, s, i);
            let x = (i / s) % w;
            let y = (i / s) / w;
            let k = i % s;
            lemma_flip_source(w, h, s, fx2, fy2, x, y, k);
            let x2 = if fx2 { w - 1 - x } else { x };
            let y2 = if fy2 { h - 1 - y } else { y };
            lemma_flip_source(w, h, s, fx1, fy1, x2, y2, k);
            lemma_flip_source(w, h, s, fx1 != fx2, fy1 != fy2, x, y, k);
        }
    }
    assert(twice =~= direct);
}

/// Mirroring by no axis keeps the first `w * h * s` bytes, and keeps all of them
/// where the data holds no more.
pub proof fn lemma_flip_identity(data: Seq<u8>, w: int, h: int, s: int)
    requires
        w >= 0,
        h >= 0,
        s > 0,
        w * h * s == data.len(),
    ensures
        spec_flip(data, w, h, s, false, false) == data,
{
    let f = spec_flip(data, w, h, s, false, false);
    assert forall|i: int| 0 <= i < data.len() implies f[i] == data[i] by {
        assert(w > 0 && h > 0) by (nonlinear_arith)
            requires
                0 <= i < w * h * s,
                w >= 0,
                h >= 0,
                s > 0,
        ;
        lemma_index_parts(w, h, s, i);
        lemma_flip_source(w, h, s, false, false, (i / s) % w, (i / s) / w, i % s);
    }
    assert(f =~= data);
}

} // verus!
