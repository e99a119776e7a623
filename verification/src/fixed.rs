//! Fixed-point arithmetic helpers. Unit-interval scalars (easing progress,
//! color channels, alpha) are held as signed integers scaled by [`SCALE`],
//! so one unit is `SCALE` and, for periodic quantities such as hue, one
//! full turn is `SCALE`.

use vstd::prelude::*;

verus! {

/// Number of fixed-point steps per unit.
pub const SCALE: i64 = 1_000_000;

/// Largest magnitude a fixed-point operand may have; generous enough for any
/// color channel or easing value while keeping every product inside `i64`.
pub const FX_LIMIT: i64 = 0x100_0000_0000;

pub open spec fn fx_ok(a: int) -> bool {
    -FX_LIMIT <= a <= FX_LIMIT
}

/// Flooring division by a positive divisor. In specifications, `/` on `int`
/// is Euclidean division, which coincides with flooring for positive
/// divisors.
pub fn div_floor_i64(a: i64, b: i64) -> (q: i64)
    requires
        0 < b <= 0x4000_0000_0000_0000,
        -0x4000_0000_0000_0000 <= a <= 0x4000_0000_0000_0000,
    ensures
        q == a as int / b as int,
        a >= 0 ==> 0 <= q <= a,
        a < 0 ==> a <= q <= 0,
{
    proof {
        let ai = a as int;
        let bi = b as int;
        vstd::arithmetic::div_mod::lemma_fundamental_div_mod(ai, bi);
        vstd::arithmetic::div_mod::lemma_mod_bound(ai, bi);
        let qa = ai / bi;
        if ai >= 0 {
            if qa < 0 {
                assert(bi * qa <= -bi) by (nonlinear_arith)
                    requires bi > 0 && qa <= -1;
                assert(false);
            }
            if qa > ai {
                assert(bi * qa >= qa) by (nonlinear_arith)
                    requires bi >= 1 && qa >= 0;
                assert(false);
            }
        } else {
            if qa > 0 {
                assert(bi * qa >= bi) by (nonlinear_arith)
                    requires bi > 0 && qa >= 1;
                assert(false);
            }
            if qa < ai {
                assert(bi * qa <= bi * (ai - 1)) by (nonlinear_arith)
                    requires bi > 0 && qa <= ai - 1;
                assert(bi * (ai - 1) == bi * ai - bi) by (nonlinear_arith);
                assert(ai - bi * ai == ai * (1 - bi)) by (nonlinear_arith);
                assert(ai * (1 - bi) >= 0) by (nonlinear_arith)
                    requires ai <= 0 && bi >= 1;
                assert(ai % bi >= bi);
                assert(false);
            }
        }
    }
    if a >= 0 {
        let q = (a as u64) / (b as u64);
        proof {
            assert(a as int / b as int == (a as u64) as int / (b as u64) as int);
        }
        q as i64
    } else {
        let na = (-a) as u64;
        let bu = b as u64;
        let d = (na + bu - 1) / bu;
        let q = -(d as i64);
        proof {
            let ai = a as int;
            let bi = b as int;
            let nai = na as int;
            let di = d as int;
            assert(nai == -ai);
            assert(di == (nai + bi - 1) / bi);
            vstd::arithmetic::div_mod::lemma_fundamental_div_mod(nai + bi - 1, bi);
            let r = (nai + bi - 1) % bi;
            vstd::arithmetic::div_mod::lemma_mod_bound(nai + bi - 1, bi);
            // di * bi == nai + bi - 1 - r with 0 <= r < bi, hence
            // nai <= di * bi <= nai + bi - 1, so -di == floor(ai / bi).
            vstd::arithmetic::div_mod::lemma_fundamental_div_mod(ai, bi);
            vstd::arithmetic::div_mod::lemma_mod_bound(ai, bi);
            let qa = ai / bi;
            let ra = ai % bi;
            assert(ai == bi * qa + ra);
            assert(di * bi == nai + bi - 1 - r);
            assert(nai == -(bi * qa + ra));
            assert(di * bi == -(bi * qa) - ra + bi - 1 - r);
            assert((-qa) * bi == -(bi * qa)) by (nonlinear_arith);
            assert(di * bi - (-qa) * bi == bi - 1 - ra - r);
            assert((di - (-qa)) * bi == di * bi - (-qa) * bi) by (nonlinear_arith);
            assert(-(2 * bi) < (di - (-qa)) * bi < 2 * bi);
            let k = di - (-qa);
            if k >= 2 {
                assert(k * bi >= 2 * bi) by (nonlinear_arith)
                    requires k >= 2 && bi > 0;
                assert(false);
            }
            if k <= -2 {
                assert(k * bi <= -2 * bi) by (nonlinear_arith)
                    requires k <= -2 && bi > 0;
                assert(false);
            }
            if k == 1 {
                assert(k * bi == bi) by (nonlinear_arith)
                    requires k == 1;
                assert(ra + r == -1);
                assert(false);
            }
            if k == -1 {
                assert(k * bi == -bi) by (nonlinear_arith)
                    requires k == -1;
                assert(ra + r == 2 * bi - 1);
                assert(ra < bi && r < bi);
                assert(ra + r <= 2 * bi - 2);
                assert(false);
            }
            assert(di == -qa);
        }
        q
    }
}

/// Ceiling division by a positive divisor.
pub fn div_ceil_i64(a: i64, b: i64) -> (q: i64)
    requires
        0 < b <= 0x1000_0000_0000_0000,
        -0x1000_0000_0000_0000 <= a <= 0x1000_0000_0000_0000,
    ensures
        q == (a + b - 1) as int / b as int,
        b * q >= a,
        b * (q - 1) < a,
        a >= 0 ==> 0 <= q <= a + b - 1,
        a < 0 ==> a <= q <= 0,
{
    let q = div_floor_i64(a + b - 1, b);
    proof {
        let ai = a as int;
        let bi = b as int;
        let qi = q as int;
        vstd::arithmetic::div_mod::lemma_fundamental_div_mod(ai + bi - 1, bi);
        vstd::arithmetic::div_mod::lemma_mod_bound(ai + bi - 1, bi);
        let r = (ai + bi - 1) % bi;
        assert(ai + bi - 1 == bi * qi + r);
        assert(bi * qi == ai + bi - 1 - r);
        assert(bi * qi >= ai);
        assert(bi * (qi - 1) == bi * qi - bi) by (nonlinear_arith);
        assert(bi * (qi - 1) < ai);
        if ai < 0 {
            if qi - 1 >= 0 {
                assert(bi * (qi - 1) >= 0) by (nonlinear_arith)
                    requires bi > 0 && qi - 1 >= 0;
                assert(false);
            }
            assert(bi * qi <= qi) by (nonlinear_arith)
                requires bi >= 1 && qi <= 0;
        }
    }
    q
}

/// Euclidean remainder with a positive modulus; the result is in `[0, m)`.
pub fn rem_euclid_i64(a: i64, m: i64) -> (r: i64)
    requires
        0 < m <= 0x1000_0000,
        -0x1000_0000_0000_0000 <= a <= 0x1000_0000_0000_0000,
    ensures
        r == a as int % m as int,
        0 <= r < m,
{
    let q = div_floor_i64(a, m);
    proof {
        vstd::arithmetic::div_mod::lemma_fundamental_div_mod(a as int, m as int);
        vstd::arithmetic::div_mod::lemma_mod_bound(a as int, m as int);
        assert(m as int * q as int == m * q) by (nonlinear_arith);
    }
    a - q * m
}

/// Linear interpolation between fixed-point scalars: at `t == 0` the result
/// is `a`, at `t == SCALE` it is `b`, and in between it moves linearly
/// (rounding toward negative infinity).
pub open spec fn spec_fx_lerp(a: int, b: int, t: int) -> int {
    a + (b - a) * t / (SCALE as int)
}

pub fn fx_lerp(a: i64, b: i64, t: i64) -> (r: i64)
    requires
        fx_ok(a as int) && fx_ok(b as int),
        0 <= t <= SCALE,
    ensures
        r == spec_fx_lerp(a as int, b as int, t as int),
        a <= b ==> a <= r <= b,
        b <= a ==> b <= r <= a,
{
    let d = b - a;
    proof {
        assert(-0x4000_0000_0000_0000 <= (d as int) * (t as int) <= 0x4000_0000_0000_0000)
            by (nonlinear_arith)
            requires
                -0x200_0000_0000 <= d as int <= 0x200_0000_0000,
                0 <= t as int <= 1_000_000,
        ;
    }
    let p = d * t;
    let q = div_floor_i64(p, SCALE);
    proof {
        let di = d as int;
        let ti = t as int;
        let s = SCALE as int;
        vstd::arithmetic::div_mod::lemma_fundamental_div_mod(di * ti, s);
        vstd::arithmetic::div_mod::lemma_mod_bound(di * ti, s);
        if di >= 0 {
            assert(0 <= di * ti <= di * s) by (nonlinear_arith)
                requires di >= 0 && 0 <= ti <= s;
            vstd::arithmetic::div_mod::lemma_div_is_ordered(di * ti, di * s, s);
            vstd::arithmetic::div_mod::lemma_div_is_ordered(0, di * ti, s);
            assert(di * s / s == di) by (nonlinear_arith)
                requires s > 0;
        } else {
            assert(di * s <= di * ti <= 0) by (nonlinear_arith)
                requires di < 0 && 0 <= ti <= s;
            vstd::arithmetic::div_mod::lemma_div_is_ordered(di * s, di * ti, s);
            vstd::arithmetic::div_mod::lemma_div_is_ordered(di * ti, 0, s);
            assert(di * s / s == di) by (nonlinear_arith)
                requires s > 0;
        }
    }
    a + q
}

/// `fx_lerp` hits its endpoints exactly.
pub proof fn lemma_fx_lerp_endpoints(a: int, b: int)
    ensures
        spec_fx_lerp(a, b, 0) == a,
        spec_fx_lerp(a, b, SCALE as int) == b,
{
    let s = SCALE as int;
    assert((b - a) * 0 == 0) by (nonlinear_arith);
    assert(0int / s == 0);
    assert((b - a) * s / s == b - a) by (nonlinear_arith)
        requires s > 0;
}

} // verus!
