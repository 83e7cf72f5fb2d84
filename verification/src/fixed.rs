//! Fixed-point scalars and the interpolation primitives built on them.
//!
//! A scalar is an `i64` that counts units of `1 / ONE`. All operations are
//! total: intermediate products are formed in `i128`, quotients round towards
//! negative infinity, and results that leave the `i64` range saturate.

use vstd::prelude::*;

verus! {

/// The scalar that stands for 1.0.
pub const ONE: i64 = 65536;

/// `v` limited to `[lo, hi]`; `lo` wins where the interval is empty.
pub open spec fn clamp_spec(v: int, lo: int, hi: int) -> int {
    if v < lo {
        lo
    } else if v > hi {
        hi
    } else {
        v
    }
}

/// The fixed-point product of `a` and `b`, saturated to the `i64` range.
pub open spec fn times_spec(a: int, b: int) -> int {
    clamp_spec((a * b) / (ONE as int), i64::MIN as int, i64::MAX as int)
}

/// `a + b`, saturated to the `i64` range.
pub open spec fn plus_spec(a: int, b: int) -> int {
    clamp_spec(a + b, i64::MIN as int, i64::MAX as int)
}

/// `a - b`, saturated to the `i64` range.
pub open spec fn minus_spec(a: int, b: int) -> int {
    clamp_spec(a - b, i64::MIN as int, i64::MAX as int)
}

/// The point at fraction `t` of the way from `a` to `b`; `t` is limited to
/// `[0, ONE]` first.
pub open spec fn lerp_spec(a: int, b: int, t: int) -> int {
    a + ((b - a) * clamp_spec(t, 0, ONE as int)) / (ONE as int)
}

/// The position of `x` between the edges `e0` and `e1`, as a fraction in
/// `[0, ONE]`. Where `e1 <= e0` this is a hard step at `e0`.
pub open spec fn ramp_spec(e0: int, e1: int, x: int) -> int {
    if x <= e0 {
        0
    } else if x >= e1 {
        ONE as int
    } else {
        ((x - e0) * (ONE as int)) / (e1 - e0)
    }
}

/// The cubic ease curve `3t^2 - 2t^3` on fractions, `t` limited to `[0, ONE]`.
pub open spec fn fade_spec(t: int) -> int {
    let c = clamp_spec(t, 0, ONE as int);
    (c * c * (3 * (ONE as int) - 2 * c)) / ((ONE as int) * (ONE as int))
}

/// Smooth-step of `x` between the edges `e0` and `e1`.
pub open spec fn smoothstep_spec(e0: int, e1: int, x: int) -> int {
    fade_spec(ramp_spec(e0, e1, x))
}

/// The distance of `v` from zero.
pub open spec fn magnitude_spec(v: int) -> int {
    if v < 0 {
        -v
    } else {
        v
    }
}

/// `a` and `b` lie no more than `d` apart.
pub open spec fn within(a: int, b: int, d: int) -> bool {
    -d <= a - b <= d
}

/// How far a product moves at most when one factor moves by `d` and the
/// other stays at `b`.
pub open spec fn times_sway_spec(b: int, d: int) -> int {
    (magnitude_spec(b) * d) / (ONE as int) + 1
}

/// The product of two `i64` values fits in an `i128` with room to spare.
pub proof fn lemma_product_fits(a: int, b: int)
    requires
        i64::MIN <= a <= i64::MAX,
        i64::MIN <= b <= i64::MAX,
    ensures
        -0x4000_0000_0000_0000_0000_0000_0000_0000 <= a * b
            <= 0x4000_0000_0000_0000_0000_0000_0000_0000,
{
    assert(-0x4000_0000_0000_0000_0000_0000_0000_0000 <= a * b
        <= 0x4000_0000_0000_0000_0000_0000_0000_0000) by (nonlinear_arith)
        requires
            -0x8000_0000_0000_0000 <= a <= 0x8000_0000_0000_0000,
            -0x8000_0000_0000_0000 <= b <= 0x8000_0000_0000_0000,
    ;
}

/// A product with a factor in `[0, w]` lies between zero and `d * w`.
pub proof fn lemma_weighted_between(d: int, t: int, w: int)
    requires
        0 <= t <= w,
    ensures
        d >= 0 ==> 0 <= d * t <= d * w,
        d <= 0 ==> d * w <= d * t <= 0,
{
    assert(d >= 0 ==> 0 <= d * t <= d * w) by (nonlinear_arith)
        requires
            0 <= t <= w,
    ;
    assert(d <= 0 ==> d * w <= d * t <= 0) by (nonlinear_arith)
        requires
            0 <= t <= w,
    ;
}

/// `lerp_spec` starts at `a`, ends at `b` and stays between the two.
pub proof fn lemma_lerp_between(a: int, b: int, t: int)
    ensures
        a <= b ==> a <= lerp_spec(a, b, t) <= b,
        b <= a ==> b <= lerp_spec(a, b, t) <= a,
        t <= 0 ==> lerp_spec(a, b, t) == a,
        t >= ONE ==> lerp_spec(a, b, t) == b,
{
    let c = clamp_spec(t, 0, ONE as int);
    lemma_weighted_between(b - a, c, ONE as int);
    assert((b - a) * 0 == 0);
}

/// Interpolation follows its ends: where both ends move by no more than
/// `m`, the result moves by no more than `m`.
pub proof fn lemma_lerp_ends(a1: int, b1: int, a2: int, b2: int, t: int, m: int)
    requires
        -m <= a2 - a1 <= m,
        -m <= b2 - b1 <= m,
    ensures
        -m <= lerp_spec(a2, b2, t) - lerp_spec(a1, b1, t) <= m,
{
    let c = clamp_spec(t, 0, ONE as int);
    let prod_a = (b1 - a1) * c;
    let prod_b = (b2 - a2) * c;
    let da = a2 - a1;
    let db = b2 - b1;
    assert(prod_b - prod_a == (db - da) * c) by (nonlinear_arith)
        requires
            prod_a == (b1 - a1) * c,
            prod_b == (b2 - a2) * c,
            da == a2 - a1,
            db == b2 - b1,
    ;
    assert(-m * 65536 <= da * 65536 + (prod_b - prod_a) <= m * 65536) by (nonlinear_arith)
        requires
            0 <= c <= 65536,
            -m <= da <= m,
            -m <= db <= m,
            prod_b - prod_a == (db - da) * c,
    {
        assert(da * 65536 + (db - da) * c == da * (65536 - c) + db * c);
        assert(-m * (65536 - c) <= da * (65536 - c) <= m * (65536 - c));
        assert(-m * c <= db * c <= m * c);
    }
    assert(lerp_spec(a1, b1, t) == (a1 * 65536 + prod_a) / 65536);
    assert(lerp_spec(a2, b2, t) == (a2 * 65536 + prod_b) / 65536);
}

/// Interpolation follows its fraction: where the span between the ends
/// times the move of the fraction is no more than `k * ONE`, the result
/// moves by no more than `k`.
pub proof fn lemma_lerp_fraction(a: int, b: int, t1: int, t2: int, k: int)
    requires
        t1 <= t2,
        -k * ONE <= (b - a) * (clamp_spec(t2, 0, ONE as int) - clamp_spec(t1, 0, ONE as int)) <= k
            * ONE,
    ensures
        -k <= lerp_spec(a, b, t2) - lerp_spec(a, b, t1) <= k,
{
    let c1 = clamp_spec(t1, 0, ONE as int);
    let c2 = clamp_spec(t2, 0, ONE as int);
    let prod_a = (b - a) * c1;
    let prod_b = (b - a) * c2;
    assert(prod_b - prod_a == (b - a) * (c2 - c1)) by (nonlinear_arith)
        requires
            prod_a == (b - a) * c1,
            prod_b == (b - a) * c2,
    ;
}

/// Limiting keeps two values as close as they were.
pub proof fn lemma_clamp_sway(v1: int, v2: int, lo: int, hi: int, d: int)
    requires
        lo <= hi,
        within(v1, v2, d),
    ensures
        within(clamp_spec(v1, lo, hi), clamp_spec(v2, lo, hi), d),
{
}

/// A product follows its factor: where one factor moves by no more than
/// `d`, the product moves by no more than `times_sway_spec(b, d)`.
pub proof fn lemma_times_sway(a1: int, a2: int, b: int, d: int)
    requires
        within(a1, a2, d),
    ensures
        within(times_spec(a1, b), times_spec(a2, b), times_sway_spec(b, d)),
        within(times_spec(b, a1), times_spec(b, a2), times_sway_spec(b, d)),
        times_sway_spec(b, d) >= 1,
{
    let m = magnitude_spec(b);
    let prod_a = a1 * b;
    let prod_b = a2 * b;
    assert(-(m * d) <= prod_a - prod_b <= m * d) by (nonlinear_arith)
        requires
            -d <= a1 - a2 <= d,
            m == magnitude_spec(b),
            prod_a == a1 * b,
            prod_b == a2 * b,
    {
        assert(prod_a - prod_b == (a1 - a2) * b);
    }
    assert(m * d >= 0) by (nonlinear_arith)
        requires
            m >= 0,
            d >= 0,
    ;
    let k = (m * d) / 65536;
    assert(within(prod_a / 65536, prod_b / 65536, k + 1));
    lemma_clamp_sway(prod_a / 65536, prod_b / 65536, i64::MIN as int, i64::MAX as int, k + 1);
    assert(b * a1 == prod_a) by (nonlinear_arith)
        requires
            prod_a == a1 * b,
    ;
    assert(b * a2 == prod_b) by (nonlinear_arith)
        requires
            prod_b == a2 * b,
    ;
}

/// `ramp_spec` is a fraction, is 0 up to the lower edge and `ONE` from the
/// upper edge on.
pub proof fn lemma_ramp_range(e0: int, e1: int, x: int)
    ensures
        0 <= ramp_spec(e0, e1, x) <= ONE,
        x <= e0 ==> ramp_spec(e0, e1, x) == 0,
        x > e0 && x >= e1 ==> ramp_spec(e0, e1, x) == ONE,
{
    if e0 < x < e1 {
        let n = x - e0;
        let d = e1 - e0;
        assert(0 <= (n * 65536) / d <= 65536) by (nonlinear_arith)
            requires
                0 < n < d,
        ;
    }
}

/// `ramp_spec` never decreases as `x` grows.
pub proof fn lemma_ramp_monotone(e0: int, e1: int, x1: int, x2: int)
    requires
        x1 <= x2,
    ensures
        ramp_spec(e0, e1, x1) <= ramp_spec(e0, e1, x2),
{
    lemma_ramp_range(e0, e1, x1);
    lemma_ramp_range(e0, e1, x2);
    if e0 < x1 && x2 < e1 {
        let n1 = x1 - e0;
        let n2 = x2 - e0;
        let d = e1 - e0;
        assert((n1 * 65536) / d <= (n2 * 65536) / d) by (nonlinear_arith)
            requires
                0 < n1 <= n2,
                d > 0,
        ;
    }
}

/// The numerator of the ease curve never decreases on `[0, ONE]`.
proof fn lemma_cubic_monotone(a: int, b: int)
    requires
        0 <= a <= b <= ONE,
    ensures
        a * a * (3 * (ONE as int) - 2 * a) <= b * b * (3 * (ONE as int) - 2 * b),
        0 <= a * a * (3 * (ONE as int) - 2 * a),
        b * b * (3 * (ONE as int) - 2 * b) <= (ONE as int) * (ONE as int) * (ONE as int),
{
    let n: int = ONE as int;
    assert(0 <= a * a * (3 * n - 2 * a)) by (nonlinear_arith)
        requires
            0 <= a <= n,
    ;
    assert(b * b * (3 * n - 2 * b) <= n * n * n) by (nonlinear_arith)
        requires
            0 <= b <= n,
    {
        assert((n - b) * (n - b) * (n + 2 * b) == n * n * n - b * b * (3 * n - 2 * b));
        assert((n - b) * (n - b) >= 0);
        assert((n - b) * (n - b) * (n + 2 * b) >= 0);
    }
    assert(a * a * (3 * n - 2 * a) <= b * b * (3 * n - 2 * b)) by (nonlinear_arith)
        requires
            0 <= a <= b <= n,
    {
        let s = 3 * n * (a + b) - 2 * (a * a + a * b + b * b);
        assert(b * b * (3 * n - 2 * b) - a * a * (3 * n - 2 * a) == (b - a) * s);
        assert(a * a <= n * a);
        assert(b * b <= n * b);
        assert(a * b <= n * a);
        assert(a * b <= n * b);
        assert(s >= 0);
        assert((b - a) * s >= 0);
    }
}

/// `fade_spec` is a fraction that fixes 0 and `ONE`.
pub proof fn lemma_fade_range(t: int)
    ensures
        0 <= fade_spec(t) <= ONE,
        t <= 0 ==> fade_spec(t) == 0,
        t >= ONE ==> fade_spec(t) == ONE,
{
    let c = clamp_spec(t, 0, ONE as int);
    lemma_cubic_monotone(c, c);
    assert((ONE as int) * (ONE as int) == 0x1_0000_0000);
    assert((ONE as int) * (ONE as int) * (ONE as int) == 0x1_0000_0000_0000);
    if c == 0 {
        assert(c * c * (3 * (ONE as int) - 2 * c) == 0);
    }
    if c == ONE {
        assert(c * c * (3 * (ONE as int) - 2 * c) == 0x1_0000_0000_0000);
    }
}

/// `fade_spec` never decreases as `t` grows.
pub proof fn lemma_fade_monotone(t1: int, t2: int)
    requires
        t1 <= t2,
    ensures
        fade_spec(t1) <= fade_spec(t2),
{
    let c1 = clamp_spec(t1, 0, ONE as int);
    let c2 = clamp_spec(t2, 0, ONE as int);
    lemma_cubic_monotone(c1, c2);
    assert((ONE as int) * (ONE as int) == 0x1_0000_0000);
}

/// The ease curve is never steeper than 3/2: between two arguments it rises
/// by no more than one and a half times their distance, and one unit for
/// the rounding.
pub proof fn lemma_fade_slope(t1: int, t2: int)
    requires
        t1 <= t2,
    ensures
        0 <= fade_spec(t2) - fade_spec(t1),
        2 * (fade_spec(t2) - fade_spec(t1)) <= 3 * (t2 - t1) + 2,
{
    let n: int = ONE as int;
    let a = clamp_spec(t1, 0, n);
    let b = clamp_spec(t2, 0, n);
    let ga = a * a * (3 * n - 2 * a);
    let gb = b * b * (3 * n - 2 * b);
    lemma_fade_monotone(t1, t2);
    lemma_cubic_monotone(a, b);
    assert(2 * (gb - ga) <= (b - a) * (3 * n * n)) by (nonlinear_arith)
        requires
            0 <= a <= b <= n,
            ga == a * a * (3 * n - 2 * a),
            gb == b * b * (3 * n - 2 * b),
    {
        let s2 = 3 * n * n - 3 * (n - a - b) * (n - a - b) - (a - b) * (a - b);
        assert(2 * (gb - ga) == (b - a) * s2);
        assert((n - a - b) * (n - a - b) >= 0);
        assert((a - b) * (a - b) >= 0);
        assert(s2 <= 3 * n * n);
        assert((b - a) * s2 <= (b - a) * (3 * n * n));
    }
    assert(n * n == 0x1_0000_0000);
    assert((b - a) * (3 * n * n) == (b - a) * 0x3_0000_0000);
}

/// Smooth-step is a fraction, 0 up to the lower edge and `ONE` from the
/// upper edge on.
pub proof fn lemma_smoothstep_range(e0: int, e1: int, x: int)
    ensures
        0 <= smoothstep_spec(e0, e1, x) <= ONE,
        x <= e0 ==> smoothstep_spec(e0, e1, x) == 0,
        x > e0 && x >= e1 ==> smoothstep_spec(e0, e1, x) == ONE,
{
    lemma_ramp_range(e0, e1, x);
    lemma_fade_range(ramp_spec(e0, e1, x));
}

/// Smooth-step never decreases as `x` grows.
pub proof fn lemma_smoothstep_monotone(e0: int, e1: int, x1: int, x2: int)
    requires
        x1 <= x2,
    ensures
        smoothstep_spec(e0, e1, x1) <= smoothstep_spec(e0, e1, x2),
{
    lemma_ramp_monotone(e0, e1, x1, x2);
    lemma_fade_monotone(ramp_spec(e0, e1, x1), ramp_spec(e0, e1, x2));
}

/// Between two arguments `ramp_spec` rises by no more than their distance
/// over the width between the edges, and one unit for the rounding.
pub proof fn lemma_ramp_slope(e0: int, e1: int, x1: int, x2: int)
    requires
        e0 < e1,
        x1 <= x2,
    ensures
        (ramp_spec(e0, e1, x2) - ramp_spec(e0, e1, x1)) * (e1 - e0) <= (x2 - x1) * ONE + (e1 - e0),
{
    let w = e1 - e0;
    let r1 = ramp_spec(e0, e1, x1);
    let r2 = ramp_spec(e0, e1, x2);
    lemma_ramp_range(e0, e1, x1);
    lemma_ramp_range(e0, e1, x2);
    lemma_ramp_monotone(e0, e1, x1, x2);
    // What the ramp gives, times the width, brackets the distance from the
    // lower edge.
    assert(r2 * w <= (x2 - e0) * 65536 || x2 <= e0) by (nonlinear_arith)
        requires
            w == e1 - e0,
            w > 0,
            r2 == ramp_spec(e0, e1, x2),
    {
        if e0 < x2 < e1 {
            let n = (x2 - e0) * 65536;
            assert(r2 == n / w);
            assert((n / w) * w <= n);
        } else if x2 >= e1 {
            assert(r2 == 65536);
            assert(65536 * w <= (x2 - e0) * 65536);
        }
    }
    assert(r1 * w + w > (x1 - e0) * 65536 || x1 >= e1) by (nonlinear_arith)
        requires
            w == e1 - e0,
            w > 0,
            r1 == ramp_spec(e0, e1, x1),
    {
        if e0 < x1 < e1 {
            let n = (x1 - e0) * 65536;
            assert(r1 == n / w);
            assert((n / w) * w + w > n);
        } else if x1 <= e0 {
            assert(r1 == 0);
        }
    }
    assert((r2 - r1) * w == r2 * w - r1 * w) by (nonlinear_arith);
    assert((x2 - x1) * 65536 == (x2 - e0) * 65536 - (x1 - e0) * 65536);
    if x2 <= e0 {
        assert(r2 == 0 && r1 == 0);
        assert((r2 - r1) * w == 0);
    } else if x1 >= e1 {
        assert(r2 == 65536 && r1 == 65536);
        assert((r2 - r1) * w == 0);
    }
}

/// Smooth-step has no hard edge while the edges lie apart: between two
/// arguments it rises by no more than one and a half times their distance
/// over the width between the edges, and three units for the rounding.
pub proof fn lemma_smoothstep_slope(e0: int, e1: int, x1: int, x2: int)
    requires
        e0 < e1,
        x1 <= x2,
    ensures
        0 <= smoothstep_spec(e0, e1, x2) - smoothstep_spec(e0, e1, x1),
        2 * (smoothstep_spec(e0, e1, x2) - smoothstep_spec(e0, e1, x1)) * (e1 - e0) <= 3 * (x2
            - x1) * ONE + 5 * (e1 - e0),
{
    let w = e1 - e0;
    let r1 = ramp_spec(e0, e1, x1);
    let r2 = ramp_spec(e0, e1, x2);
    let rise = smoothstep_spec(e0, e1, x2) - smoothstep_spec(e0, e1, x1);
    lemma_ramp_monotone(e0, e1, x1, x2);
    lemma_ramp_slope(e0, e1, x1, x2);
    lemma_fade_slope(r1, r2);
    assert(2 * rise * w <= (3 * (r2 - r1) + 2) * w) by (nonlinear_arith)
        requires
            2 * rise <= 3 * (r2 - r1) + 2,
            w > 0,
    ;
    assert((3 * (r2 - r1) + 2) * w == 3 * ((r2 - r1) * w) + 2 * w) by (nonlinear_arith);
}

/// Limits `v` to `[lo, hi]`.
pub fn clamp(v: i64, lo: i64, hi: i64) -> (r: i64)
    ensures
        r == clamp_spec(v as int, lo as int, hi as int),
{
    if v < lo {
        lo
    } else if v > hi {
        hi
    } else {
        v
    }
}

/// Brings a wide intermediate back into the `i64` range, saturating.
fn narrow(v: i128) -> (r: i64)
    ensures
        r == clamp_spec(v as int, i64::MIN as int, i64::MAX as int),
{
    if v < -0x8000_0000_0000_0000 {
        i64::MIN
    } else if v > 0x7fff_ffff_ffff_ffff {
        i64::MAX
    } else {
        v as i64
    }
}

/// Divides a wide product by `ONE`, rounding towards negative infinity.
pub(crate) fn floor_units(p: i128) -> (q: i128)
    requires
        -0x4000_0000_0000_0000_0000_0000_0000_0000 <= p
            <= 0x4000_0000_0000_0000_0000_0000_0000_0000,
    ensures
        q == (p as int) / (ONE as int),
{
    if p >= 0 {
        p / 65536
    } else {
        let up: i128 = -p + 65535;
        -(up / 65536)
    }
}

/// Adds two scalars, saturating at the ends of the `i64` range.
pub fn plus(a: i64, b: i64) -> (r: i64)
    ensures
        r == plus_spec(a as int, b as int),
{
    let wide: i128 = a as i128 + b as i128;
    narrow(wide)
}

/// Subtracts `b` from `a`, saturating at the ends of the `i64` range.
pub fn minus(a: i64, b: i64) -> (r: i64)
    ensures
        r == minus_spec(a as int, b as int),
{
    let wide: i128 = a as i128 - b as i128;
    narrow(wide)
}

/// Multiplies two scalars, saturating at the ends of the `i64` range.
pub fn times(a: i64, b: i64) -> (r: i64)
    ensures
        r == times_spec(a as int, b as int),
{
    proof {
        lemma_product_fits(a as int, b as int);
    }
    let wide: i128 = (a as i128) * (b as i128);
    narrow(floor_units(wide))
}

/// Interpolates linearly from `a` (at `t <= 0`) to `b` (at `t >= ONE`).
pub fn lerp(a: i64, b: i64, t: i64) -> (r: i64)
    ensures
        r == lerp_spec(a as int, b as int, t as int),
{
    let c: i64 = clamp(t, 0, ONE);
    let d: i128 = b as i128 - a as i128;
    proof {
        lemma_weighted_between(d as int, c as int, ONE as int);
        lemma_lerp_between(a as int, b as int, t as int);
    }
    let step: i128 = floor_units(d * (c as i128));
    let r: i128 = a as i128 + step;
    r as i64
}

/// The position of `x` between two edges as a fraction in `[0, ONE]`.
pub fn ramp(e0: i64, e1: i64, x: i64) -> (r: i64)
    ensures
        r == ramp_spec(e0 as int, e1 as int, x as int),
        0 <= r <= ONE,
{
    proof {
        lemma_ramp_range(e0 as int, e1 as int, x as int);
    }
    if x <= e0 {
        0
    } else if x >= e1 {
        ONE
    } else {
        let n: i128 = x as i128 - e0 as i128;
        let d: i128 = e1 as i128 - e0 as i128;
        let q: i128 = (n * 65536) / d;
        q as i64
    }
}

/// The cubic ease curve on fractions.
pub fn fade(t: i64) -> (r: i64)
    ensures
        r == fade_spec(t as int),
        0 <= r <= ONE,
{
    let c: i64 = clamp(t, 0, ONE);
    proof {
        lemma_fade_range(t as int);
        lemma_cubic_monotone(c as int, c as int);
        assert(0 <= c * c <= 0x1_0000_0000) by (nonlinear_arith)
            requires
                0 <= c <= 65536,
        ;
        assert(c * c * (3 * (ONE as int) - 2 * c) <= 0x1_0000_0000_0000) by {
            assert((ONE as int) * (ONE as int) * (ONE as int) == 0x1_0000_0000_0000);
        }
    }
    let sq: i64 = c * c;
    let num: i64 = sq * (3 * ONE - 2 * c);
    num / 0x1_0000_0000
}

/// Smooth-step of `x` between two edges: 0 up to `e0`, `ONE` from `e1` on.
pub fn smoothstep(e0: i64, e1: i64, x: i64) -> (r: i64)
    ensures
        r == smoothstep_spec(e0 as int, e1 as int, x as int),
        0 <= r <= ONE,
{
    fade(ramp(e0, e1, x))
}

} // verus!
