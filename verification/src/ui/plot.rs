//! The envelope of a wave for display: for each segment of the wave, the
//! lowest and the highest value in it.
//!
//! Audio values are `f32` bit patterns, compared as `f32`'s `<` compares
//! the values they encode: NaN is unordered, and the two zeros are equal.

use vstd::prelude::*;
use crate::wave::record::order_key;

verus! {

/// The limits of an empty segment: the bit patterns of `(0.0, 0.0)`.
pub const NO_LIMITS: (u32, u32) = (0, 0);

/// The bit pattern without its sign bit.
pub open spec fn magnitude(b: u32) -> int {
    if b < 0x8000_0000 {
        b as int
    } else {
        b - 0x8000_0000
    }
}

/// The pattern encodes a NaN: all exponent bits set and a fraction.
pub open spec fn is_nan(b: u32) -> bool {
    magnitude(b) > 0x7f80_0000
}

/// `a < b` for the `f32` values the patterns encode: both are numbers,
/// not both zeros, and `a` comes first in total order.
pub open spec fn float_lt(a: u32, b: u32) -> bool {
    &&& !is_nan(a)
    &&& !is_nan(b)
    &&& !(magnitude(a) == 0 && magnitude(b) == 0)
    &&& order_key(a) < order_key(b)
}

/// `a < b` for the `f32` values the patterns encode, computed.
pub fn float_less(a: u32, b: u32) -> (r: bool)
    ensures
        r == float_lt(a, b),
{
    let ma: u32 = if a < 0x8000_0000 { a } else { a - 0x8000_0000 };
    let mb: u32 = if b < 0x8000_0000 { b } else { b - 0x8000_0000 };
    if ma > 0x7f80_0000 || mb > 0x7f80_0000 {
        return false;
    }
    if ma == 0 && mb == 0 {
        return false;
    }
    let ka: i64 = if a < 0x8000_0000 { a as i64 } else { 0x7fff_ffff_i64 - a as i64 };
    let kb: i64 = if b < 0x8000_0000 { b as i64 } else { 0x7fff_ffff_i64 - b as i64 };
    ka < kb
}

/// The limits `(low, high)` after the `n` values of `w` from `from` on,
/// starting from `(0.0, 0.0)`: a value below the low limit lowers it,
/// else a value above the high limit raises it.
pub open spec fn segment_limits(w: Seq<u32>, from: int, n: nat) -> (u32, u32)
    decreases n,
{
    if n == 0 {
        NO_LIMITS
    } else {
        let (lo, hi) = segment_limits(w, from, (n - 1) as nat);
        let x = w[from + n - 1];
        if float_lt(x, lo) {
            (x, hi)
        } else if float_lt(hi, x) {
            (lo, x)
        } else {
            (lo, hi)
        }
    }
}

/// The limits of a single value: a negative value is the low limit, any
/// other the high limit.
pub open spec fn value_limits(x: u32) -> (u32, u32) {
    if float_lt(x, 0) {
        (x, 0)
    } else {
        (0, x)
    }
}

/// The wave is shorter than the number of segments wanted (or as long).
pub open spec fn is_short(w: Seq<u32>, segments: nat) -> bool {
    !(segments < w.len())
}

/// The envelope of `w` over `segments` segments. A long wave is cut into
/// `segments` segments of `w.len() / segments` values each (the rest at
/// the end is left out); a short wave gives one segment per value, and
/// segments past its end have no limits.
pub open spec fn envelope(w: Seq<u32>, segments: nat) -> Seq<(u32, u32)> {
    if !is_short(w, segments) {
        let per = w.len() / segments;
        Seq::new(segments, |s: int| segment_limits(w, s * per, per))
    } else {
        Seq::new(segments, |i: int| if i < w.len() { value_limits(w[i]) } else { NO_LIMITS })
    }
}

/// Lowering a limit keeps every value that was not below it not below
/// the new one: when `v` is not below `lo` and `y` is below `lo`, `v` is
/// not below `y`; and the same upwards.
proof fn lemma_lt_step(v: u32, lo: u32, y: u32)
    requires
        !is_nan(v),
        !is_nan(lo),
        !float_lt(v, lo),
        float_lt(y, lo),
    ensures
        !float_lt(v, y),
{
}

proof fn lemma_gt_step(v: u32, hi: u32, y: u32)
    requires
        !is_nan(v),
        !is_nan(hi),
        !float_lt(hi, v),
        float_lt(hi, y),
    ensures
        !float_lt(y, v),
{
}

/// The limits of a segment are numbers around zero, and bracket every
/// number of the segment.
proof fn lemma_segment_brackets(w: Seq<u32>, from: int, n: nat)
    requires
        0 <= from,
        from + n <= w.len(),
    ensures
        ({
            let (lo, hi) = segment_limits(w, from, n);
            &&& !is_nan(lo) && !is_nan(hi)
            &&& !float_lt(0, lo) && !float_lt(hi, 0)
            &&& forall|i: int|
                0 <= i < n && !is_nan(#[trigger] w[from + i]) ==> !float_lt(w[from + i], lo)
                    && !float_lt(hi, w[from + i])
        }),
    decreases n,
{
    if n > 0 {
        lemma_segment_brackets(w, from, (n - 1) as nat);
        let (lo, hi) = segment_limits(w, from, (n - 1) as nat);
        let x = w[from + n - 1];
        if float_lt(x, lo) {
            lemma_lt_step(0, lo, x);
            assert forall|i: int|
                0 <= i < n && !is_nan(#[trigger] w[from + i]) implies !float_lt(w[from + i], x)
                && !float_lt(hi, w[from + i]) by {
                if i < n - 1 {
                    lemma_lt_step(w[from + i], lo, x);
                }
            }
        } else if float_lt(hi, x) {
            lemma_gt_step(0, hi, x);
            assert forall|i: int|
                0 <= i < n && !is_nan(#[trigger] w[from + i]) implies !float_lt(w[from + i], lo)
                && !float_lt(x, w[from + i]) by {
                if i < n - 1 {
                    lemma_gt_step(w[from + i], hi, x);
                }
            }
        }
    }
}

/// The displayed envelope contains the wave: in a long wave, the limits
/// of each segment lie around zero and every number of the segment lies
/// between them (NaN, which compares with nothing, is left out).
pub proof fn law_envelope_contains_wave(w: Seq<u32>, segments: nat, s: int, j: int)
    requires
        segments < w.len(),
        0 <= s < segments,
        s * (w.len() / segments) <= j < s * (w.len() / segments) + w.len() / segments,
    ensures
        ({
            let (lo, hi) = envelope(w, segments)[s];
            &&& !float_lt(0, lo) && !float_lt(hi, 0)
            &&& !is_nan(w[j]) ==> !float_lt(w[j], lo) && !float_lt(hi, w[j])
        }),
{
    let per = w.len() / segments;
    assert(segments * per <= w.len()) by (nonlinear_arith)
        requires
            segments > 0,
            per == w.len() / segments,
    ;
    lemma_segment_inside(s, per as int, segments as int, w.len() as int);
    lemma_segment_brackets(w, s * per, per);
    assert(w[s * per + (j - s * per)] == w[j]);
}

/// Segment `s` of `per` values lies inside a wave of `segments * per` or more values.
proof fn lemma_segment_inside(s: int, per: int, segments: int, len: int)
    requires
        0 <= s < segments,
        0 <= per,
        segments * per <= len,
    ensures
        0 <= s * per,
        s * per + per <= len,
{
    assert(s * per + per == (s + 1) * per) by (nonlinear_arith);
    assert((s + 1) * per <= segments * per) by (nonlinear_arith)
        requires
            s + 1 <= segments,
            0 <= per,
    ;
    assert(0 <= s * per) by (nonlinear_arith)
        requires
            0 <= s,
            0 <= per,
    ;
}

/// The limits of the `n` values of `wave` from `from` on.
fn limits_of_segment(wave: &[u32], from: usize, n: usize) -> (l: (u32, u32))
    requires
        from + n <= wave@.len(),
    ensures
        l == segment_limits(wave@, from as int, n as nat),
{
    let len = wave.len();
    let mut lo: u32 = 0;
    let mut hi: u32 = 0;
    let mut k: usize = 0;
    while k < n
        invariant
            k <= n,
            len == wave@.len(),
            from + n <= wave@.len(),
            (lo, hi) == segment_limits(wave@, from as int, k as nat),
        decreases n - k,
    {
        let x = wave[from + k];
        if float_less(x, lo) {
            lo = x;
        } else if float_less(hi, x) {
            hi = x;
        }
        k = k + 1;
    }
    (lo, hi)
}

/// The envelope of `wave` over `segments` segments, and whether the wave
/// counted as short. A long wave cannot be cut into no segments.
pub fn wave_envelope(wave: &[u32], segments: usize) -> (r: (Vec<(u32, u32)>, bool))
    requires
        segments > 0 || wave@.len() == 0,
    ensures
        r.0@ == envelope(wave@, segments as nat),
        r.1 == is_short(wave@, segments as nat),
{
    let len = wave.len();
    let mut limits: Vec<(u32, u32)> = Vec::new();
    if segments < len {
        let per = len / segments;
        proof {
            assert(segments * per <= len) by (nonlinear_arith)
                requires
                    segments > 0,
                    per == len / segments,
            ;
        }
        for s in 0..segments
            invariant
                segments < len,
                len == wave@.len(),
                per == len / segments,
                segments * per <= len,
                limits@ == Seq::new(s as nat, |i: int| segment_limits(wave@, i * per, per as nat)),
        {
            proof {
                lemma_segment_inside(s as int, per as int, segments as int, len as int);
            }
            let from = s * per;
            let l = limits_of_segment(wave, from, per);
            limits.push(l);
            assert(limits@ =~= Seq::new((s + 1) as nat, |i: int| segment_limits(wave@, i * per, per as nat)));
        }
        assert(limits@ =~= envelope(wave@, segments as nat));
        (limits, false)
    } else {
        for i in 0..segments
            invariant
                segments >= len,
                len == wave@.len(),
                limits@ == Seq::new(i as nat, |j: int| if j < len { value_limits(wave@[j]) } else { NO_LIMITS }),
        {
            let l = if i < len {
                let x = wave[i];
                if float_less(x, 0) {
                    (x, 0u32)
                } else {
                    (0u32, x)
                }
            } else {
                NO_LIMITS
            };
            limits.push(l);
            assert(limits@ =~= Seq::new((i + 1) as nat, |j: int| if j < len { value_limits(wave@[j]) } else { NO_LIMITS }));
        }
        assert(limits@ =~= envelope(wave@, segments as nat));
        (limits, true)
    }
}

} // verus!
