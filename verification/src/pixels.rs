//! Byte-level models of the geometric and tonal transforms.
//!
//! A pixel buffer is a flat byte sequence, row-major and
//! channel-interleaved: byte `o` of the pixel in row `r`, column `c` of a
//! buffer `w` pixels wide with `p` bytes per pixel sits at
//! `(r * w + c) * p + o`. Each transform below is the byte permutation the
//! corresponding operation performs, and the lemmas prove the algebraic laws
//! the operations obey.

use vstd::prelude::*;

use vstd::arithmetic::div_mod::{
    lemma_fundamental_div_mod, lemma_fundamental_div_mod_converse, lemma_mod_bound, lemma_mod_mod,
};

verus! {

/// Flat byte index of byte `o` of the pixel at row `r`, column `c` in a
/// buffer `w` pixels wide with `p` bytes per pixel.
pub open spec fn flat_idx(w: int, p: int, r: int, c: int, o: int) -> int {
    (r * w + c) * p + o
}

/// Row of the pixel holding flat byte index `k`.
pub open spec fn row_of(k: int, w: int, p: int) -> int {
    k / (w * p)
}

/// Column of the pixel holding flat byte index `k`.
pub open spec fn col_of(k: int, w: int, p: int) -> int {
    (k % (w * p)) / p
}

/// Offset of flat byte index `k` inside its pixel.
pub open spec fn off_of(k: int, p: int) -> int {
    k % p
}

/// Bytes of a buffer flipped horizontally: row `r`, column `c` reads from
/// row `r`, column `w - 1 - c`.
pub open spec fn fliph_bytes(b: Seq<u8>, w: int, h: int, p: int) -> Seq<u8> {
    Seq::new(
        (h * w * p) as nat,
        |k: int| b[flat_idx(w, p, row_of(k, w, p), w - 1 - col_of(k, w, p), off_of(k, p))],
    )
}

/// Bytes of a buffer flipped vertically: row `r` reads from row `h - 1 - r`.
pub open spec fn flipv_bytes(b: Seq<u8>, w: int, h: int, p: int) -> Seq<u8> {
    Seq::new(
        (h * w * p) as nat,
        |k: int| b[flat_idx(w, p, h - 1 - row_of(k, w, p), col_of(k, w, p), off_of(k, p))],
    )
}

/// Bytes of a buffer rotated 180 degrees: row `r`, column `c` reads from row
/// `h - 1 - r`, column `w - 1 - c`.
pub open spec fn rot180_bytes(b: Seq<u8>, w: int, h: int, p: int) -> Seq<u8> {
    Seq::new(
        (h * w * p) as nat,
        |k: int| b[flat_idx(w, p, h - 1 - row_of(k, w, p), w - 1 - col_of(k, w, p), off_of(k, p))],
    )
}

/// Bytes of a buffer rotated 90 degrees clockwise. The result is `h` pixels
/// wide and `w` pixels tall; its row `r`, column `c` reads from the input's
/// row `h - 1 - c`, column `r`.
pub open spec fn rot90_bytes(b: Seq<u8>, w: int, h: int, p: int) -> Seq<u8> {
    Seq::new(
        (w * h * p) as nat,
        |k: int| b[flat_idx(w, p, h - 1 - col_of(k, h, p), row_of(k, h, p), off_of(k, p))],
    )
}

/// Bytes of a buffer rotated 270 degrees clockwise. The result is `h` pixels
/// wide and `w` pixels tall; its row `r`, column `c` reads from the input's
/// row `c`, column `w - 1 - r`.
pub open spec fn rot270_bytes(b: Seq<u8>, w: int, h: int, p: int) -> Seq<u8> {
    Seq::new(
        (w * h * p) as nat,
        |k: int| b[flat_idx(w, p, col_of(k, h, p), w - 1 - row_of(k, h, p), off_of(k, p))],
    )
}

/// Which sample (channel) of its pixel byte `k` belongs to, for samples `s`
/// bytes wide in pixels of `ch` samples.
pub open spec fn sample_of(k: int, s: int, ch: int) -> int {
    (k / s) % ch
}

/// Bytes of a buffer with every sample replaced by its type maximum minus
/// itself, except the alpha sample (the last channel) when `alpha` is set.
/// For unsigned samples this complement is bytewise regardless of byte
/// order.
pub open spec fn invert_bytes(b: Seq<u8>, ch: int, s: int, alpha: bool) -> Seq<u8> {
    Seq::new(
        b.len(),
        |k: int|
            if alpha && sample_of(k, s, ch) == ch - 1 {
                b[k]
            } else {
                (255 - b[k]) as u8
            },
    )
}

/// A byte-wide sample shifted by `value`, saturating at the type bounds.
pub open spec fn brighten_u8(s: u8, value: int) -> u8 {
    if s + value < 0 {
        0u8
    } else if s + value > 255 {
        255u8
    } else {
        (s + value) as u8
    }
}

/// Bytes of a buffer of byte-wide samples with every sample shifted by
/// `value`, saturating at the type bounds, the alpha sample (the last
/// channel) untouched when `alpha` is set.
pub open spec fn brighten_bytes(b: Seq<u8>, ch: int, alpha: bool, value: int) -> Seq<u8> {
    Seq::new(
        b.len(),
        |k: int|
            if alpha && sample_of(k, 1, ch) == ch - 1 {
                b[k]
            } else {
                brighten_u8(b[k], value)
            },
    )
}

/// Every shift past the sample maximum saturates alike: clamping the shift
/// at 65536 leaves the result unchanged.
pub proof fn lemma_brighten_saturates(b: Seq<u8>, ch: int, alpha: bool, value: int)
    requires
        value > 65536,
    ensures
        brighten_bytes(b, ch, alpha, 65536) == brighten_bytes(b, ch, alpha, value),
{
    assert(brighten_bytes(b, ch, alpha, 65536) =~= brighten_bytes(b, ch, alpha, value));
}

/// Bytes of the `cw` x `crh` rectangle of a buffer whose top-left pixel is
/// at column `x`, row `y`.
pub open spec fn crop_bytes(b: Seq<u8>, w: int, p: int, x: int, y: int, cw: int, crh: int) -> Seq<
    u8,
> {
    Seq::new(
        (crh * cw * p) as nat,
        |k: int| b[flat_idx(w, p, y + row_of(k, cw, p), x + col_of(k, cw, p), off_of(k, p))],
    )
}

/// Rearrangements of a buffer's byte count, as a product of width, height,
/// channel count and sample size.
pub proof fn lemma_size_shuffle(w: int, h: int, c: int, e: int)
    by (nonlinear_arith)
    requires
        w >= 0,
        h >= 0,
        c >= 0,
        e >= 0,
    ensures
        w * h * (c * e) == h * w * c * e,
        h * w * (c * e) == h * w * c * e,
        w * h * (c * e) == w * h * c * e,
        h * w * (c * e) == w * h * c * e,
        w * h * (c * e) >= 0,
        h * w * (c * e) >= 0,
{
}

/// A flat index built from coordinates in range decomposes back into those
/// coordinates and lies within the buffer.
pub proof fn lemma_flat_decompose(w: int, h: int, p: int, r: int, c: int, o: int)
    requires
        0 < w,
        0 < p,
        0 <= r < h,
        0 <= c < w,
        0 <= o < p,
    ensures
        row_of(flat_idx(w, p, r, c, o), w, p) == r,
        col_of(flat_idx(w, p, r, c, o), w, p) == c,
        off_of(flat_idx(w, p, r, c, o), p) == o,
        0 <= flat_idx(w, p, r, c, o) < h * w * p,
{
    let k: int = flat_idx(w, p, r, c, o);
    let rem: int = c * p + o;
    assert(k == r * (w * p) + rem) by (nonlinear_arith)
        requires
            k == (r * w + c) * p + o,
            rem == c * p + o,
    ;
    assert(0 <= rem < w * p) by (nonlinear_arith)
        requires
            0 <= c < w,
            0 <= o < p,
            rem == c * p + o,
    ;
    assert(0 < w * p) by (nonlinear_arith)
        requires
            0 < w,
            0 < p,
    ;
    lemma_fundamental_div_mod_converse(k, w * p, r, rem);
    lemma_fundamental_div_mod_converse(rem, p, c, o);
    assert(k == (r * w + c) * p + o);
    assert(0 <= r * w + c) by (nonlinear_arith)
        requires
            0 <= r,
            0 <= c,
            0 < w,
    ;
    lemma_fundamental_div_mod_converse(k, p, r * w + c, o);
    assert(k < h * w * p) by (nonlinear_arith)
        requires
            k == r * (w * p) + rem,
            rem < w * p,
            r < h,
            0 < w * p,
    ;
}

/// Every flat index within a buffer decomposes into in-range coordinates.
pub proof fn lemma_flat_recompose(k: int, w: int, h: int, p: int)
    requires
        0 < w,
        0 < h,
        0 < p,
        0 <= k < h * w * p,
    ensures
        0 <= row_of(k, w, p) < h,
        0 <= col_of(k, w, p) < w,
        0 <= off_of(k, p) < p,
        k == flat_idx(w, p, row_of(k, w, p), col_of(k, w, p), off_of(k, p)),
{
    let wp: int = w * p;
    assert(0 < wp) by (nonlinear_arith)
        requires
            0 < w,
            0 < p,
            wp == w * p,
    ;
    lemma_fundamental_div_mod(k, wp);
    lemma_mod_bound(k, wp);
    let r: int = row_of(k, w, p);
    let rem: int = k % wp;
    assert(k == wp * r + rem);
    assert(0 <= r) by (nonlinear_arith)
        requires
            k == wp * r + rem,
            0 <= k,
            0 <= rem < wp,
            0 < wp,
    ;
    assert(r < h) by (nonlinear_arith)
        requires
            k == wp * r + rem,
            k < h * w * p,
            0 <= rem,
            0 < wp,
            wp == w * p,
    ;
    lemma_fundamental_div_mod(rem, p);
    lemma_mod_bound(rem, p);
    let c: int = rem / p;
    let o2: int = rem % p;
    assert(0 <= c < w) by (nonlinear_arith)
        requires
            rem == p * c + o2,
            0 <= rem < w * p,
            0 <= o2 < p,
            0 < p,
    ;
    lemma_mod_mod(k, p, w);
    assert(p * w == w * p) by (nonlinear_arith);
    assert(o2 == off_of(k, p));
    assert(k == flat_idx(w, p, r, c, o2)) by (nonlinear_arith)
        requires
            k == wp * r + rem,
            rem == p * c + o2,
            wp == w * p,
    ;
}

/// A buffer's byte count is positive only when all its dimensions are.
proof fn lemma_dims_positive(k: int, w: int, h: int, p: int)
    requires
        0 <= w,
        0 <= h,
        0 <= p,
        0 <= k < h * w * p,
    ensures
        0 < w,
        0 < h,
        0 < p,
{
    assert(0 < w && 0 < h && 0 < p) by (nonlinear_arith)
        requires
            0 <= w,
            0 <= h,
            0 <= p,
            0 < h * w * p,
    ;
}

/// Flipping a buffer horizontally twice restores it.
pub proof fn lemma_fliph_involutive(b: Seq<u8>, w: int, h: int, p: int)
    requires
        0 <= w,
        0 <= h,
        0 <= p,
        b.len() == h * w * p,
    ensures
        fliph_bytes(fliph_bytes(b, w, h, p), w, h, p) == b,
{
    let f1 = fliph_bytes(b, w, h, p);
    let f2 = fliph_bytes(f1, w, h, p);
    assert forall|k: int| 0 <= k < h * w * p implies f2[k] == b[k] by {
        lemma_dims_positive(k, w, h, p);
        lemma_flat_recompose(k, w, h, p);
        let r: int = row_of(k, w, p);
        let c: int = col_of(k, w, p);
        let o: int = off_of(k, p);
        lemma_flat_decompose(w, h, p, r, w - 1 - c, o);
    };
    assert(f2 =~= b);
}

/// Flipping a buffer vertically twice restores it.
pub proof fn lemma_flipv_involutive(b: Seq<u8>, w: int, h: int, p: int)
    requires
        0 <= w,
        0 <= h,
        0 <= p,
        b.len() == h * w * p,
    ensures
        flipv_bytes(flipv_bytes(b, w, h, p), w, h, p) == b,
{
    let f1 = flipv_bytes(b, w, h, p);
    let f2 = flipv_bytes(f1, w, h, p);
    assert forall|k: int| 0 <= k < h * w * p implies f2[k] == b[k] by {
        lemma_dims_positive(k, w, h, p);
        lemma_flat_recompose(k, w, h, p);
        let r: int = row_of(k, w, p);
        let c: int = col_of(k, w, p);
        let o: int = off_of(k, p);
        lemma_flat_decompose(w, h, p, h - 1 - r, c, o);
    };
    assert(f2 =~= b);
}

/// Rotating a buffer 180 degrees equals flipping it horizontally and then
/// vertically.
pub proof fn lemma_rot180_is_flips(b: Seq<u8>, w: int, h: int, p: int)
    requires
        0 <= w,
        0 <= h,
        0 <= p,
        b.len() == h * w * p,
    ensures
        rot180_bytes(b, w, h, p) == flipv_bytes(fliph_bytes(b, w, h, p), w, h, p),
{
    let f1 = fliph_bytes(b, w, h, p);
    let f2 = flipv_bytes(f1, w, h, p);
    let r180 = rot180_bytes(b, w, h, p);
    assert forall|k: int| 0 <= k < h * w * p implies f2[k] == r180[k] by {
        lemma_dims_positive(k, w, h, p);
        lemma_flat_recompose(k, w, h, p);
        let r: int = row_of(k, w, p);
        let c: int = col_of(k, w, p);
        let o: int = off_of(k, p);
        lemma_flat_decompose(w, h, p, h - 1 - r, c, o);
    };
    assert(f2 =~= r180);
}

/// Rotating a buffer 90 degrees clockwise four times restores it.
pub proof fn lemma_rot90_four_times(b: Seq<u8>, w: int, h: int, p: int)
    requires
        0 <= w,
        0 <= h,
        0 <= p,
        b.len() == h * w * p,
    ensures
        rot90_bytes(
            rot90_bytes(rot90_bytes(rot90_bytes(b, w, h, p), h, w, p), w, h, p),
            h,
            w,
            p,
        ) == b,
{
    let t1 = rot90_bytes(b, w, h, p);
    let t2 = rot90_bytes(t1, h, w, p);
    let t3 = rot90_bytes(t2, w, h, p);
    let t4 = rot90_bytes(t3, h, w, p);
    assert forall|k: int| 0 <= k < h * w * p implies t4[k] == b[k] by {
        lemma_dims_positive(k, w, h, p);
        lemma_flat_recompose(k, w, h, p);
        let r: int = row_of(k, w, p);
        let c: int = col_of(k, w, p);
        let o: int = off_of(k, p);
        // t4 reads t3 at row w - 1 - c, column r (t3 is h wide, w tall).
        lemma_flat_decompose(h, w, p, w - 1 - c, r, o);
        let k3: int = flat_idx(h, p, w - 1 - c, r, o);
        assert(t4[k] == t3[k3]);
        // t3 reads t2 at row h - 1 - r, column w - 1 - c (t2 is w wide, h tall).
        lemma_flat_decompose(w, h, p, h - 1 - r, w - 1 - c, o);
        let k2: int = flat_idx(w, p, h - 1 - r, w - 1 - c, o);
        assert(t3[k3] == t2[k2]);
        // t2 reads t1 at row c, column h - 1 - r (t1 is h wide, w tall).
        lemma_flat_decompose(h, w, p, c, h - 1 - r, o);
        let k1: int = flat_idx(h, p, c, h - 1 - r, o);
        assert(t2[k2] == t1[k1]);
        // t1 reads b at row r, column c.
        assert(t1[k1] == b[flat_idx(w, p, r, c, o)]);
    };
    assert(t4 =~= b);
}

/// Inverting a buffer twice restores it, whatever the alpha handling.
pub proof fn lemma_invert_involutive(b: Seq<u8>, ch: int, s: int, alpha: bool)
    ensures
        invert_bytes(invert_bytes(b, ch, s, alpha), ch, s, alpha) == b,
{
    let i1 = invert_bytes(b, ch, s, alpha);
    let i2 = invert_bytes(i1, ch, s, alpha);
    assert forall|k: int| 0 <= k < b.len() implies i2[k] == b[k] by {
        assert(i1[k] == if alpha && sample_of(k, s, ch) == ch - 1 {
            b[k]
        } else {
            (255 - b[k]) as u8
        });
    };
    assert(i2 =~= b);
}

} // verus!
