//! Fixed-point scalar arithmetic.
//!
//! A scalar is an `i64` holding `value * 2^20`. All operations clamp
//! their result into `[-BOUND, BOUND]`, so chains of operations stay
//! inside machine range without per-call-site overflow reasoning; the
//! clamp never fires for the magnitudes a scene actually uses. Every
//! executable operation returns exactly what its specification mirror
//! computes, which keeps the whole pipeline deterministic in the eyes
//! of the verifier.

use vstd::prelude::*;

verus! {

/// Fractional steps per unit: a raw scalar `x` stands for `x / 2^20`.
pub const SCALE: i64 = 0x100000;

/// Magnitude bound kept by every clamped operation: `2^31` raw steps,
/// that is `2^11` whole units.
pub const BOUND: i64 = 0x80000000;

/// One, as a fixed-point scalar.
pub const ONE: i64 = 0x100000;

/// Whether a raw scalar lies inside the range the pipeline works in.
pub open spec fn fits(x: int) -> bool {
    -(BOUND as int) <= x <= BOUND as int
}

/// The clamp every operation applies to its mathematical result.
pub open spec fn spec_clamp(x: int) -> int {
    if x < -(BOUND as int) {
        -(BOUND as int)
    } else if x > BOUND as int {
        BOUND as int
    } else {
        x
    }
}

pub open spec fn spec_abs(x: int) -> int {
    if x < 0 {
        -x
    } else {
        x
    }
}

/// Saturating addition.
pub open spec fn spec_add(a: int, b: int) -> int {
    spec_clamp(a + b)
}

/// Saturating subtraction.
pub open spec fn spec_sub(a: int, b: int) -> int {
    spec_clamp(a - b)
}

/// Saturating fixed-point product: magnitudes are multiplied, scaled
/// back down with flooring division, and the sign is reapplied, so the
/// result is the real product truncated toward zero.
pub open spec fn spec_mul(a: int, b: int) -> int {
    let m = (spec_abs(a) * spec_abs(b)) / (SCALE as int);
    if (a < 0) != (b < 0) {
        spec_clamp(-m)
    } else {
        spec_clamp(m)
    }
}

/// Saturating fixed-point quotient, truncated toward zero; division by
/// zero is defined as zero.
pub open spec fn spec_div(a: int, b: int) -> int {
    if b == 0 {
        0
    } else {
        let m = (spec_abs(a) * (SCALE as int)) / spec_abs(b);
        if (a < 0) != (b < 0) {
            spec_clamp(-m)
        } else {
            spec_clamp(m)
        }
    }
}

pub open spec fn spec_min(a: int, b: int) -> int {
    if a < b {
        a
    } else {
        b
    }
}

pub open spec fn spec_max(a: int, b: int) -> int {
    if a > b {
        a
    } else {
        b
    }
}

/// Clamp into the unit interval `[0, ONE]`.
pub open spec fn spec_clamp01(a: int) -> int {
    if a < 0 {
        0
    } else if a > ONE as int {
        ONE as int
    } else {
        a
    }
}

/// The integer square root: the unique `r` with `r^2 <= n < (r+1)^2`.
pub open spec fn spec_isqrt(n: int) -> int {
    choose|r: int| 0 <= r && #[trigger] (r * r) <= n < (r + 1) * (r + 1)
}

/// Square root of a non-negative fixed-point scalar: the integer
/// square root of `x * SCALE`, which is again a fixed-point scalar
/// (for `x` holding `v * SCALE`, it holds about `sqrt(v) * SCALE`).
pub open spec fn spec_sqrt(x: int) -> int {
    spec_isqrt(x * (SCALE as int))
}

pub fn cadd(a: i64, b: i64) -> (r: i64)
    requires
        fits(a as int),
        fits(b as int),
    ensures
        r as int == spec_add(a as int, b as int),
        fits(r as int),
{
    let s: i64 = a + b;
    if s < -BOUND {
        -BOUND
    } else if s > BOUND {
        BOUND
    } else {
        s
    }
}

pub fn csub(a: i64, b: i64) -> (r: i64)
    requires
        fits(a as int),
        fits(b as int),
    ensures
        r as int == spec_sub(a as int, b as int),
        fits(r as int),
{
    let s: i64 = a - b;
    if s < -BOUND {
        -BOUND
    } else if s > BOUND {
        BOUND
    } else {
        s
    }
}

pub fn cneg(a: i64) -> (r: i64)
    requires
        fits(a as int),
    ensures
        r as int == -(a as int),
        fits(r as int),
{
    -a
}

pub fn cmin(a: i64, b: i64) -> (r: i64)
    ensures
        r as int == spec_min(a as int, b as int),
{
    if a < b {
        a
    } else {
        b
    }
}

pub fn cmax(a: i64, b: i64) -> (r: i64)
    ensures
        r as int == spec_max(a as int, b as int),
{
    if a > b {
        a
    } else {
        b
    }
}

pub fn cabs(a: i64) -> (r: i64)
    requires
        fits(a as int),
    ensures
        r as int == spec_abs(a as int),
        fits(r as int),
{
    if a < 0 {
        -a
    } else {
        a
    }
}

pub fn cclamp01(a: i64) -> (r: i64)
    ensures
        r as int == spec_clamp01(a as int),
        0 <= r as int <= ONE as int,
{
    if a < 0 {
        0
    } else if a > ONE {
        ONE
    } else {
        a
    }
}

pub fn cmul(a: i64, b: i64) -> (r: i64)
    requires
        fits(a as int),
        fits(b as int),
    ensures
        r as int == spec_mul(a as int, b as int),
        fits(r as int),
{
    let neg: bool = (a < 0) != (b < 0);
    let ma: u64 = if a < 0 {
        (-a) as u64
    } else {
        a as u64
    };
    let mb: u64 = if b < 0 {
        (-b) as u64
    } else {
        b as u64
    };
    assert(ma * mb <= 0x80000000u64 * 0x80000000u64) by (nonlinear_arith)
        requires
            ma <= 0x80000000u64,
            mb <= 0x80000000u64,
    ;
    let p: u64 = (ma * mb) / (SCALE as u64);
    let m: i64 = if p > BOUND as u64 {
        BOUND
    } else {
        p as i64
    };
    if neg {
        -m
    } else {
        m
    }
}

pub fn cdiv(a: i64, b: i64) -> (r: i64)
    requires
        fits(a as int),
        fits(b as int),
    ensures
        r as int == spec_div(a as int, b as int),
        fits(r as int),
{
    if b == 0 {
        return 0;
    }
    let neg: bool = (a < 0) != (b < 0);
    let ma: u64 = if a < 0 {
        (-a) as u64
    } else {
        a as u64
    };
    let mb: u64 = if b < 0 {
        (-b) as u64
    } else {
        b as u64
    };
    assert(ma * (SCALE as u64) <= 0x80000000u64 * 0x100000u64) by (nonlinear_arith)
        requires
            ma <= 0x80000000u64,
            SCALE as u64 == 0x100000u64,
    ;
    let p: u64 = (ma * (SCALE as u64)) / mb;
    let m: i64 = if p > BOUND as u64 {
        BOUND
    } else {
        p as i64
    };
    if neg {
        -m
    } else {
        m
    }
}

/// There is exactly one integer square root, so `spec_isqrt` names it.
pub proof fn lemma_isqrt_is(n: int, r: int)
    requires
        0 <= r,
        r * r <= n,
        n < (r + 1) * (r + 1),
    ensures
        spec_isqrt(n) == r,
{
    assert(r * r <= n < (r + 1) * (r + 1));
    let w = choose|w: int| 0 <= w && #[trigger] (w * w) <= n < (w + 1) * (w + 1);
    assert(0 <= w && w * w <= n < (w + 1) * (w + 1));
    assert(w == r) by (nonlinear_arith)
        requires
            0 <= r,
            0 <= w,
            r * r <= n < (r + 1) * (r + 1),
            w * w <= n < (w + 1) * (w + 1),
    ;
}

/// Every non-negative integer has an integer square root, so
/// `spec_isqrt` denotes it and satisfies its defining bounds.
pub proof fn lemma_isqrt_bounds(n: int)
    requires
        0 <= n,
    ensures
        0 <= spec_isqrt(n),
        spec_isqrt(n) * spec_isqrt(n) <= n,
        n < (spec_isqrt(n) + 1) * (spec_isqrt(n) + 1),
    decreases n,
{
    if n == 0 {
        assert(0 * 0 <= n && n < (0 + 1) * (0 + 1)) by (nonlinear_arith)
            requires
                n == 0,
        ;
        assert(exists|r: int| 0 <= r && #[trigger] (r * r) <= n < (r + 1) * (r + 1));
    } else {
        lemma_isqrt_bounds(n - 1);
        let p = spec_isqrt(n - 1);
        if n < (p + 1) * (p + 1) {
            assert(p * p <= n < (p + 1) * (p + 1));
            assert(exists|r: int| 0 <= r && #[trigger] (r * r) <= n < (r + 1) * (r + 1));
        } else {
            assert(n == (p + 1) * (p + 1));
            assert((p + 1) * (p + 1) <= n < ((p + 1) + 1) * ((p + 1) + 1)) by (nonlinear_arith)
                requires
                    n == (p + 1) * (p + 1),
                    0 <= p,
            ;
            assert(exists|r: int| 0 <= r && #[trigger] (r * r) <= n < (r + 1) * (r + 1));
        }
    }
    let w = choose|w: int| 0 <= w && #[trigger] (w * w) <= n < (w + 1) * (w + 1);
    lemma_isqrt_is(n, w);
}

/// Binary-search integer square root.
pub fn isqrt(n: u64) -> (r: u64)
    requires
        n < 0x4000000000000000u64,
    ensures
        r * r <= n,
        n < (r + 1) * (r + 1),
        r as int == spec_isqrt(n as int),
        r < 0x80000000u64,
{
    let mut lo: u64 = 0;
    let mut hi: u64 = 0x80000000;
    while lo + 1 < hi
        invariant
            lo < hi <= 0x80000000u64,
            lo * lo <= n,
            n < hi * hi,
        decreases hi - lo,
    {
        let mid: u64 = lo + (hi - lo) / 2;
        assert(mid * mid < 0x10000000000000000) by (nonlinear_arith)
            requires
                mid <= 0x80000000u64,
        ;
        if mid * mid <= n {
            lo = mid;
        } else {
            hi = mid;
        }
    }
    assert(n < (lo + 1) * (lo + 1));
    proof {
        lemma_isqrt_is(n as int, lo as int);
    }
    lo
}

/// Square root on fixed-point scalars.
pub fn sqrt_fx(x: i64) -> (r: i64)
    requires
        0 <= x as int <= BOUND as int,
    ensures
        r as int == spec_sqrt(x as int),
        0 <= r as int,
        fits(r as int),
        x as int <= ONE as int ==> r as int <= ONE as int,
{
    let n: u64 = (x as u64) * (SCALE as u64);
    let r: u64 = isqrt(n);
    assert(r <= 0x8000000u64) by (nonlinear_arith)
        requires
            r * r <= n,
            n <= 0x80000000u64 * 0x100000u64,
    ;
    proof {
        if x as int <= ONE as int {
            assert(r <= 0x100000u64) by (nonlinear_arith)
                requires
                    r * r <= n,
                    n as int == x as int * (SCALE as int),
                    x as int <= ONE as int,
                    SCALE as int == 0x100000,
                    ONE as int == 0x100000,
            ;
        }
    }
    r as i64
}

/// A product of unit-interval scalars stays in the unit interval.
pub proof fn lemma_mul_unit_range(a: int, b: int)
    requires
        0 <= a <= ONE as int,
        0 <= b <= ONE as int,
    ensures
        0 <= spec_mul(a, b) <= ONE as int,
        0 <= spec_mul(a, b) <= a,
{
    assert(0 <= a * b <= a * 0x100000) by (nonlinear_arith)
        requires
            0 <= a <= 0x100000,
            0 <= b <= 0x100000,
    ;
    assert(0 <= (a * b) / 0x100000 <= a) by (nonlinear_arith)
        requires
            0 <= a * b <= a * 0x100000,
    ;
}

/// Multiplying by one, minus one, or zero is exact: no precision is
/// lost on these scalars.
pub proof fn lemma_mul_unit_exact(a: int)
    requires
        fits(a),
    ensures
        spec_mul(a, ONE as int) == a,
        spec_mul(a, -(ONE as int)) == -a,
        spec_mul(a, 0) == 0,
{
    vstd::arithmetic::div_mod::lemma_div_multiples_vanish(spec_abs(a), SCALE as int);
    assert(spec_abs(a) * (SCALE as int) == (SCALE as int) * spec_abs(a)) by (nonlinear_arith);
    assert(spec_abs(a) * 0 == 0) by (nonlinear_arith);
    assert(0int / (SCALE as int) == 0) by (nonlinear_arith)
        requires
            SCALE as int == 0x100000,
    ;
}

/// A product of non-negatives is non-negative and in range.
pub proof fn lemma_mul_nonneg(a: int, b: int)
    requires
        0 <= a,
        0 <= b,
    ensures
        0 <= spec_mul(a, b) <= BOUND as int,
{
    assert(0 <= a * b) by (nonlinear_arith)
        requires
            0 <= a,
            0 <= b,
    ;
    assert(0 <= (a * b) / (SCALE as int));
}

/// A quotient of a non-negative by any scalar is non-negative when
/// the divisor is non-negative, and in range.
pub proof fn lemma_div_nonneg(a: int, b: int)
    requires
        0 <= a,
        0 <= b,
    ensures
        0 <= spec_div(a, b) <= BOUND as int,
{
    if b != 0 {
        assert(0 <= a * (SCALE as int)) by (nonlinear_arith)
            requires
                0 <= a,
        ;
        assert(0 <= (a * (SCALE as int)) / b);
    }
}

/// One whole power step: `spec_powi(x, n)` is `x^n` computed with the
/// saturating product.
pub open spec fn spec_powi(x: int, n: nat) -> int
    decreases n,
{
    if n == 0 {
        ONE as int
    } else {
        spec_mul(x, spec_powi(x, (n - 1) as nat))
    }
}

/// `x^n` for a unit-interval base and whole exponent.
pub fn powi(x: i64, n: u32) -> (r: i64)
    requires
        0 <= x as int <= ONE as int,
    ensures
        r as int == spec_powi(x as int, n as nat),
        0 <= r as int <= ONE as int,
{
    let mut acc: i64 = ONE;
    let mut i: u32 = 0;
    while i < n
        invariant
            i <= n,
            0 <= x as int <= ONE as int,
            acc as int == spec_powi(x as int, i as nat),
            0 <= acc as int <= ONE as int,
        decreases n - i,
    {
        proof {
            lemma_mul_unit_range(x as int, acc as int);
        }
        acc = cmul(x, acc);
        i = i + 1;
    }
    acc
}

/// One round of the fractional-exponent loop: the running square root
/// chain, the remaining fraction doubled, and the accumulator.
pub open spec fn spec_pow_frac_step(x: int, f: int, k: nat) -> (int, int, int)
    decreases k,
{
    if k == 0 {
        (x, f, ONE as int)
    } else {
        let (cur, fr, acc) = spec_pow_frac_step(x, f, (k - 1) as nat);
        let cur2 = spec_sqrt(cur);
        let fr2 = fr * 2;
        if fr2 >= SCALE as int {
            (cur2, fr2 - SCALE as int, spec_mul(acc, cur2))
        } else {
            (cur2, fr2, acc)
        }
    }
}

/// `x^(f/SCALE)` for a unit-interval base and a fraction `0 <= f < SCALE`,
/// by twenty rounds of square-and-select.
pub open spec fn spec_pow_frac(x: int, f: int) -> int {
    spec_pow_frac_step(x, f, 20).2
}

/// `x^(e/SCALE)` for a unit-interval base and non-negative exponent:
/// the whole part by repeated products, the fractional part by the
/// square root chain.
pub open spec fn spec_powf(x: int, e: int) -> int {
    spec_mul(
        spec_powi(x, (e / (SCALE as int)) as nat),
        spec_pow_frac(x, e % (SCALE as int)),
    )
}

/// `x` raised to a non-negative fixed-point exponent, for a base in
/// the unit interval.
pub fn powf(x: i64, e: i64) -> (r: i64)
    requires
        0 <= x as int <= ONE as int,
        0 <= e as int,
        fits(e as int),
    ensures
        r as int == spec_powf(x as int, e as int),
        0 <= r as int <= ONE as int,
{
    let whole: u64 = (e as u64) / (SCALE as u64);
    let ip: i64 = powi(x, whole as u32);
    let mut cur: i64 = x;
    let mut f: i64 = e % SCALE;
    let mut acc: i64 = ONE;
    let mut k: u32 = 0;
    while k < 20
        invariant
            k <= 20,
            0 <= x as int <= ONE as int,
            (cur as int, f as int, acc as int) == spec_pow_frac_step(
                x as int,
                (e as int) % (SCALE as int),
                k as nat,
            ),
            0 <= cur as int <= ONE as int,
            0 <= f as int,
            (f as int) < SCALE as int,
            0 <= acc as int <= ONE as int,
        decreases 20 - k,
    {
        cur = sqrt_fx(cur);
        f = f * 2;
        if f >= SCALE {
            f = f - SCALE;
            proof {
                lemma_mul_unit_range(acc as int, cur as int);
            }
            acc = cmul(acc, cur);
        }
        k = k + 1;
    }
    proof {
        lemma_mul_unit_range(ip as int, acc as int);
    }
    assert(whole as int == (e as int) / (SCALE as int));
    cmul(ip, acc)
}

} // verus!
