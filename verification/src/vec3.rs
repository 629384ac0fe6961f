//! Three-component fixed-point vectors and the small vector calculus
//! the shading pipeline uses: dot products, lengths, normalization,
//! mirror reflection, linear interpolation and componentwise powers.

use vstd::arithmetic::div_mod::{lemma_fundamental_div_mod, lemma_mod_bound};
use vstd::prelude::*;

use crate::fx;
use crate::fx::{
    cadd, cclamp01, cdiv, cmax, cmin, cmul, csub, powf, spec_add, spec_clamp01, spec_div,
    spec_isqrt, spec_max, spec_min, spec_mul, spec_powf, spec_sqrt, spec_sub, sqrt_fx, ONE,
};

verus! {

/// A vector of three fixed-point scalars.
#[derive(Clone, Copy, Debug, PartialEq, Eq, Structural)]
pub struct V3 {
    pub x: i64,
    pub y: i64,
    pub z: i64,
}

/// The mathematical shadow of a `V3`: unbounded integer components.
pub ghost struct V3i {
    pub x: int,
    pub y: int,
    pub z: int,
}

pub open spec fn fits_v3(v: V3i) -> bool {
    fx::fits(v.x) && fx::fits(v.y) && fx::fits(v.z)
}

pub open spec fn spec_vadd(a: V3i, b: V3i) -> V3i {
    V3i { x: spec_add(a.x, b.x), y: spec_add(a.y, b.y), z: spec_add(a.z, b.z) }
}

pub open spec fn spec_vsub(a: V3i, b: V3i) -> V3i {
    V3i { x: spec_sub(a.x, b.x), y: spec_sub(a.y, b.y), z: spec_sub(a.z, b.z) }
}

pub open spec fn spec_vneg(a: V3i) -> V3i {
    V3i { x: -a.x, y: -a.y, z: -a.z }
}

/// Componentwise product, used both for scaling and for tinting colors.
pub open spec fn spec_vmul(a: V3i, b: V3i) -> V3i {
    V3i { x: spec_mul(a.x, b.x), y: spec_mul(a.y, b.y), z: spec_mul(a.z, b.z) }
}

pub open spec fn spec_vscale(k: int, a: V3i) -> V3i {
    V3i { x: spec_mul(k, a.x), y: spec_mul(k, a.y), z: spec_mul(k, a.z) }
}

pub open spec fn spec_vdot(a: V3i, b: V3i) -> int {
    spec_add(spec_add(spec_mul(a.x, b.x), spec_mul(a.y, b.y)), spec_mul(a.z, b.z))
}

pub open spec fn spec_vabs(a: V3i) -> V3i {
    V3i { x: fx::spec_abs(a.x), y: fx::spec_abs(a.y), z: fx::spec_abs(a.z) }
}

pub open spec fn spec_vmin(a: V3i, b: V3i) -> V3i {
    V3i { x: spec_min(a.x, b.x), y: spec_min(a.y, b.y), z: spec_min(a.z, b.z) }
}

pub open spec fn spec_vmax(a: V3i, b: V3i) -> V3i {
    V3i { x: spec_max(a.x, b.x), y: spec_max(a.y, b.y), z: spec_max(a.z, b.z) }
}

pub open spec fn spec_vclamp01(a: V3i) -> V3i {
    V3i { x: spec_clamp01(a.x), y: spec_clamp01(a.y), z: spec_clamp01(a.z) }
}

/// Length of a vector: the square root of its self-dot-product.
pub open spec fn spec_vlength(a: V3i) -> int {
    spec_sqrt(spec_vdot(a, a))
}

/// Normalization by the computed length; a vector of length zero maps
/// to the zero vector (division by zero is defined as zero).
pub open spec fn spec_vnormalize(a: V3i) -> V3i {
    let l = spec_vlength(a);
    V3i { x: spec_div(a.x, l), y: spec_div(a.y, l), z: spec_div(a.z, l) }
}

/// The cross product, componentwise over saturating products.
pub open spec fn spec_vcross(a: V3i, b: V3i) -> V3i {
    V3i {
        x: spec_sub(spec_mul(a.y, b.z), spec_mul(a.z, b.y)),
        y: spec_sub(spec_mul(a.z, b.x), spec_mul(a.x, b.z)),
        z: spec_sub(spec_mul(a.x, b.y), spec_mul(a.y, b.x)),
    }
}

/// Mirror reflection of `d` about `n`: `d - 2(d.n)n`.
pub open spec fn spec_vreflect(d: V3i, n: V3i) -> V3i {
    let k = spec_add(spec_vdot(d, n), spec_vdot(d, n));
    spec_vsub(d, spec_vscale(k, n))
}

/// Linear interpolation `a*(1-t) + b*t`, componentwise.
pub open spec fn spec_mix(a: int, b: int, t: int) -> int {
    spec_add(spec_mul(a, spec_sub(ONE as int, t)), spec_mul(b, t))
}

pub open spec fn spec_vmix(a: V3i, b: V3i, t: int) -> V3i {
    V3i { x: spec_mix(a.x, b.x, t), y: spec_mix(a.y, b.y, t), z: spec_mix(a.z, b.z, t) }
}

/// Componentwise power for unit-interval vectors.
pub open spec fn spec_vpow(a: V3i, e: V3i) -> V3i {
    V3i { x: spec_powf(a.x, e.x), y: spec_powf(a.y, e.y), z: spec_powf(a.z, e.z) }
}

pub open spec fn unit_range_v3(a: V3i) -> bool {
    0 <= a.x <= ONE as int && 0 <= a.y <= ONE as int && 0 <= a.z <= ONE as int
}

/// A square is never negative, and the saturating product keeps it in
/// range.
pub proof fn lemma_sq_nonneg(a: int)
    ensures
        0 <= spec_mul(a, a) <= fx::BOUND as int,
{
    assert(0 <= fx::spec_abs(a) * fx::spec_abs(a)) by (nonlinear_arith);
    assert(0 <= (fx::spec_abs(a) * fx::spec_abs(a)) / (fx::SCALE as int));
}

/// A self-dot-product is never negative.
pub proof fn lemma_vdot_self_nonneg(a: V3i)
    ensures
        0 <= spec_vdot(a, a) <= fx::BOUND as int,
{
    lemma_sq_nonneg(a.x);
    lemma_sq_nonneg(a.y);
    lemma_sq_nonneg(a.z);
}

impl V3 {
    /// The mathematical value of this vector.
    pub open spec fn view(self) -> V3i {
        V3i { x: self.x as int, y: self.y as int, z: self.z as int }
    }

    pub open spec fn wf(self) -> bool {
        fits_v3(self.view())
    }

    pub fn new(x: i64, y: i64, z: i64) -> (r: V3)
        ensures
            r.view() == (V3i { x: x as int, y: y as int, z: z as int }),
    {
        V3 { x, y, z }
    }

    pub fn zero() -> (r: V3)
        ensures
            r.view() == (V3i { x: 0, y: 0, z: 0 }),
            r.wf(),
    {
        V3 { x: 0, y: 0, z: 0 }
    }

    pub fn splat(v: i64) -> (r: V3)
        ensures
            r.view() == (V3i { x: v as int, y: v as int, z: v as int }),
    {
        V3 { x: v, y: v, z: v }
    }

    pub fn add(self, o: V3) -> (r: V3)
        requires
            self.wf(),
            o.wf(),
        ensures
            r.view() == spec_vadd(self.view(), o.view()),
            r.wf(),
    {
        V3 { x: cadd(self.x, o.x), y: cadd(self.y, o.y), z: cadd(self.z, o.z) }
    }

    pub fn sub(self, o: V3) -> (r: V3)
        requires
            self.wf(),
            o.wf(),
        ensures
            r.view() == spec_vsub(self.view(), o.view()),
            r.wf(),
    {
        V3 { x: csub(self.x, o.x), y: csub(self.y, o.y), z: csub(self.z, o.z) }
    }

    pub fn neg(self) -> (r: V3)
        requires
            self.wf(),
        ensures
            r.view() == spec_vneg(self.view()),
            r.wf(),
    {
        V3 { x: -self.x, y: -self.y, z: -self.z }
    }

    pub fn mul(self, o: V3) -> (r: V3)
        requires
            self.wf(),
            o.wf(),
        ensures
            r.view() == spec_vmul(self.view(), o.view()),
            r.wf(),
    {
        V3 { x: cmul(self.x, o.x), y: cmul(self.y, o.y), z: cmul(self.z, o.z) }
    }

    pub fn scale(self, k: i64) -> (r: V3)
        requires
            self.wf(),
            fx::fits(k as int),
        ensures
            r.view() == spec_vscale(k as int, self.view()),
            r.wf(),
    {
        V3 { x: cmul(k, self.x), y: cmul(k, self.y), z: cmul(k, self.z) }
    }

    pub fn dot(self, o: V3) -> (r: i64)
        requires
            self.wf(),
            o.wf(),
        ensures
            r as int == spec_vdot(self.view(), o.view()),
            fx::fits(r as int),
    {
        cadd(cadd(cmul(self.x, o.x), cmul(self.y, o.y)), cmul(self.z, o.z))
    }

    pub fn abs(self) -> (r: V3)
        requires
            self.wf(),
        ensures
            r.view() == spec_vabs(self.view()),
            r.wf(),
    {
        V3 { x: fx::cabs(self.x), y: fx::cabs(self.y), z: fx::cabs(self.z) }
    }

    pub fn min(self, o: V3) -> (r: V3)
        ensures
            r.view() == spec_vmin(self.view(), o.view()),
    {
        V3 { x: cmin(self.x, o.x), y: cmin(self.y, o.y), z: cmin(self.z, o.z) }
    }

    pub fn max(self, o: V3) -> (r: V3)
        ensures
            r.view() == spec_vmax(self.view(), o.view()),
    {
        V3 { x: cmax(self.x, o.x), y: cmax(self.y, o.y), z: cmax(self.z, o.z) }
    }

    pub fn clamp01(self) -> (r: V3)
        ensures
            r.view() == spec_vclamp01(self.view()),
            unit_range_v3(r.view()),
            r.wf(),
    {
        V3 { x: cclamp01(self.x), y: cclamp01(self.y), z: cclamp01(self.z) }
    }

    pub fn length(self) -> (r: i64)
        requires
            self.wf(),
        ensures
            r as int == spec_vlength(self.view()),
            0 <= r as int,
            fx::fits(r as int),
    {
        proof {
            lemma_vdot_self_nonneg(self.view());
        }
        sqrt_fx(self.dot(self))
    }

    pub fn normalize(self) -> (r: V3)
        requires
            self.wf(),
        ensures
            r.view() == spec_vnormalize(self.view()),
            r.wf(),
    {
        let l: i64 = self.length();
        V3 { x: cdiv(self.x, l), y: cdiv(self.y, l), z: cdiv(self.z, l) }
    }

    pub fn mix(self, o: V3, t: i64) -> (r: V3)
        requires
            self.wf(),
            o.wf(),
            fx::fits(t as int),
        ensures
            r.view() == spec_vmix(self.view(), o.view(), t as int),
            r.wf(),
    {
        let u: i64 = csub(ONE, t);
        V3 {
            x: cadd(cmul(self.x, u), cmul(o.x, t)),
            y: cadd(cmul(self.y, u), cmul(o.y, t)),
            z: cadd(cmul(self.z, u), cmul(o.z, t)),
        }
    }

    pub fn cross(self, o: V3) -> (r: V3)
        requires
            self.wf(),
            o.wf(),
        ensures
            r.view() == spec_vcross(self.view(), o.view()),
            r.wf(),
    {
        V3 {
            x: csub(cmul(self.y, o.z), cmul(self.z, o.y)),
            y: csub(cmul(self.z, o.x), cmul(self.x, o.z)),
            z: csub(cmul(self.x, o.y), cmul(self.y, o.x)),
        }
    }

    pub fn pow(self, e: V3) -> (r: V3)
        requires
            unit_range_v3(self.view()),
            0 <= e.view().x,
            0 <= e.view().y,
            0 <= e.view().z,
            e.wf(),
        ensures
            r.view() == spec_vpow(self.view(), e.view()),
            unit_range_v3(r.view()),
            r.wf(),
    {
        V3 { x: powf(self.x, e.x), y: powf(self.y, e.y), z: powf(self.z, e.z) }
    }
}

/// The ideal (unrounded) dot product of two mathematical vectors.
pub open spec fn spec_idot(a: V3i, b: V3i) -> int {
    a.x * b.x + a.y * b.y + a.z * b.z
}

/// The ideal mirror reflection, scaled by `n.n` to stay integral:
/// `(n.n)d - 2(d.n)n`. For a unit normal this is `d - 2(d.n)n`, the
/// map `spec_vreflect` computes in fixed-point steps.
pub open spec fn spec_ireflect(d: V3i, n: V3i) -> V3i {
    V3i {
        x: spec_idot(n, n) * d.x - 2 * spec_idot(d, n) * n.x,
        y: spec_idot(n, n) * d.y - 2 * spec_idot(d, n) * n.y,
        z: spec_idot(n, n) * d.z - 2 * spec_idot(d, n) * n.z,
    }
}

/// The ideal (unrounded) cross product of two mathematical vectors.
pub open spec fn spec_icross(a: V3i, b: V3i) -> V3i {
    V3i {
        x: a.y * b.z - a.z * b.y,
        y: a.z * b.x - a.x * b.z,
        z: a.x * b.y - a.y * b.x,
    }
}

/// A cross product is orthogonal to both of its factors — the law
/// behind the camera basis construction. `spec_vcross` computes this
/// map in fixed-point steps, so its dot products against the factors
/// track zero within rounding, exactly so for axis-aligned factors.
pub proof fn lemma_cross_orthogonal(a: V3i, b: V3i)
    ensures
        spec_idot(spec_icross(a, b), a) == 0,
        spec_idot(spec_icross(a, b), b) == 0,
{
    assert((a.y * b.z - a.z * b.y) * a.x + (a.z * b.x - a.x * b.z) * a.y + (a.x * b.y - a.y * b.x)
        * a.z == 0) by (nonlinear_arith);
    assert((a.y * b.z - a.z * b.y) * b.x + (a.z * b.x - a.x * b.z) * b.y + (a.x * b.y - a.y * b.x)
        * b.z == 0) by (nonlinear_arith);
}

/// Mirror reflection preserves length and flips the normal
/// component: the reflected vector's squared length is `(n.n)^2`
/// times the squared length of `d`, and its component along `n` is
/// the negation of `d`'s — so for a unit normal,
/// `|reflect(d, n)| == |d|` and `reflect(d, n).n == -(d.n)`.
pub proof fn lemma_reflect_law(d: V3i, n: V3i)
    ensures
        spec_idot(spec_ireflect(d, n), spec_ireflect(d, n)) == spec_idot(n, n) * spec_idot(n, n)
            * spec_idot(d, d),
        spec_idot(spec_ireflect(d, n), n) == -(spec_idot(d, n) * spec_idot(n, n)),
{
    let nn = spec_idot(n, n);
    let dn = spec_idot(d, n);
    lemma_reflect_component(nn, dn, d.x, n.x);
    lemma_reflect_component(nn, dn, d.y, n.y);
    lemma_reflect_component(nn, dn, d.z, n.z);
    assert(nn * nn * (d.x * d.x) + nn * nn * (d.y * d.y) + nn * nn * (d.z * d.z) == nn * nn
        * spec_idot(d, d) && 4 * (nn * dn) * (d.x * n.x) + 4 * (nn * dn) * (d.y * n.y) + 4 * (nn
        * dn) * (d.z * n.z) == 4 * (nn * dn) * dn && 4 * (dn * dn) * (n.x * n.x) + 4 * (dn * dn) * (
    n.y * n.y) + 4 * (dn * dn) * (n.z * n.z) == 4 * (dn * dn) * nn && 4 * (nn * dn) * dn == 4 * (dn
        * dn) * nn && nn * nn * spec_idot(d, d) == spec_idot(n, n) * spec_idot(n, n) * spec_idot(
        d,
        d,
    )) by (nonlinear_arith)
        requires
            nn == spec_idot(n, n),
            dn == spec_idot(d, n),
            spec_idot(d, d) == d.x * d.x + d.y * d.y + d.z * d.z,
            spec_idot(n, n) == n.x * n.x + n.y * n.y + n.z * n.z,
            spec_idot(d, n) == d.x * n.x + d.y * n.y + d.z * n.z,
    ;
    assert(nn * (d.x * n.x) + nn * (d.y * n.y) + nn * (d.z * n.z) == nn * dn && 2 * dn * (n.x
        * n.x) + 2 * dn * (n.y * n.y) + 2 * dn * (n.z * n.z) == 2 * dn * nn && nn * dn - 2 * dn * nn
        == -(dn * nn)) by (nonlinear_arith)
        requires
            nn == spec_idot(n, n),
            dn == spec_idot(d, n),
            spec_idot(n, n) == n.x * n.x + n.y * n.y + n.z * n.z,
            spec_idot(d, n) == d.x * n.x + d.y * n.y + d.z * n.z,
    ;
}

/// One component of the reflection identities: the square and the
/// normal projection of `nn*di - 2*dn*ni`, expanded.
#[verifier::rlimit(100)]
proof fn lemma_reflect_component(nn: int, dn: int, di: int, ni: int)
    ensures
        (nn * di - 2 * dn * ni) * (nn * di - 2 * dn * ni) == nn * nn * (di * di) - 4 * (nn * dn) * (
        di * ni) + 4 * (dn * dn) * (ni * ni),
        (nn * di - 2 * dn * ni) * ni == nn * (di * ni) - 2 * dn * (ni * ni),
{
    let a = nn * di;
    let b = 2 * (dn * ni);
    assert((a - b) * (a - b) == a * a - 2 * (a * b) + b * b) by (nonlinear_arith);
    assert(a * a == nn * nn * (di * di)) by (nonlinear_arith)
        requires
            a == nn * di,
    ;
    assert(a * b == 2 * ((nn * dn) * (di * ni))) by (nonlinear_arith)
        requires
            a == nn * di,
            b == 2 * (dn * ni),
    ;
    assert(b * b == 4 * ((dn * dn) * (ni * ni))) by (nonlinear_arith)
        requires
            b == 2 * (dn * ni),
    ;
    assert(nn * di - 2 * dn * ni == a - b) by (nonlinear_arith)
        requires
            a == nn * di,
            b == 2 * (dn * ni),
    ;
    assert(2 * (2 * ((nn * dn) * (di * ni))) == 4 * (nn * dn) * (di * ni)) by (nonlinear_arith);
    assert(4 * ((dn * dn) * (ni * ni)) == 4 * (dn * dn) * (ni * ni)) by (nonlinear_arith);
    assert((a - b) * ni == a * ni - b * ni) by (nonlinear_arith);
    assert(a * ni == nn * (di * ni)) by (nonlinear_arith)
        requires
            a == nn * di,
    ;
    assert(b * ni == 2 * dn * (ni * ni)) by (nonlinear_arith)
        requires
            b == 2 * (dn * ni),
    ;
}

/// Whether `n` is one of the six axis-aligned unit vectors.
pub open spec fn is_axis_unit(n: V3i) -> bool {
    ||| (fx::spec_abs(n.x) == ONE as int && n.y == 0 && n.z == 0)
    ||| (n.x == 0 && fx::spec_abs(n.y) == ONE as int && n.z == 0)
    ||| (n.x == 0 && n.y == 0 && fx::spec_abs(n.z) == ONE as int)
}

/// For an axis-aligned unit normal the fixed-point reflection obeys
/// the mirror laws exactly: the squared length is kept and the
/// normal component flips sign. (For general unit normals truncation
/// denies an exact form; `lemma_reflect_law` states the law in ideal
/// arithmetic.)
pub proof fn lemma_reflect_axis_exact(d: V3i, n: V3i)
    requires
        fx::spec_abs(d.x) <= 0x40000000,
        fx::spec_abs(d.y) <= 0x40000000,
        fx::spec_abs(d.z) <= 0x40000000,
        is_axis_unit(n),
    ensures
        spec_vdot(spec_vreflect(d, n), spec_vreflect(d, n)) == spec_vdot(d, d),
        spec_vdot(spec_vreflect(d, n), n) == -spec_vdot(d, n),
{
    fx::lemma_mul_unit_exact(d.x);
    fx::lemma_mul_unit_exact(d.y);
    fx::lemma_mul_unit_exact(d.z);
    let dn = spec_vdot(d, n);
    let k = spec_add(dn, dn);
    fx::lemma_mul_unit_exact(k);
    let r = spec_vreflect(d, n);
    if fx::spec_abs(n.x) == ONE as int && n.y == 0 && n.z == 0 {
        assert(r.x == -d.x && r.y == d.y && r.z == d.z);
    } else if n.x == 0 && fx::spec_abs(n.y) == ONE as int && n.z == 0 {
        assert(r.x == d.x && r.y == -d.y && r.z == d.z);
    } else {
        assert(r.x == d.x && r.y == d.y && r.z == -d.z);
    }
}

/// The finite-precision normalizer really normalizes: for an
/// in-range vector whose fixed-point self-dot-product is at least
/// `0x4000` steps — a length of an eighth of a unit or more — the
/// squared length of `spec_vnormalize(v)` is one, within a few
/// hundred of the `2^20` steps that make up one. Shorter vectors
/// lose too much to truncation for such a band and are excluded.
#[verifier::rlimit(100)]
pub proof fn lemma_normalize_unit(v: V3i)
    requires
        fx::spec_abs(v.x) <= 0x1000000,
        fx::spec_abs(v.y) <= 0x1000000,
        fx::spec_abs(v.z) <= 0x1000000,
        0x4000 <= spec_vdot(v, v),
    ensures
        ONE as int - 16 <= spec_vdot(spec_vnormalize(v), spec_vnormalize(v)),
        spec_vdot(spec_vnormalize(v), spec_vnormalize(v)) <= ONE as int + 512,
{
    let dx = fx::spec_abs(v.x);
    let dy = fx::spec_abs(v.y);
    let dz = fx::spec_abs(v.z);
    let sx = dx * dx;
    let sy = dy * dy;
    let sz = dz * dz;
    assert(0 <= sx <= 0x1000000000000 && 0 <= sy <= 0x1000000000000 && 0 <= sz
        <= 0x1000000000000) by (nonlinear_arith)
        requires
            0 <= dx <= 0x1000000,
            0 <= dy <= 0x1000000,
            0 <= dz <= 0x1000000,
            sx == dx * dx,
            sy == dy * dy,
            sz == dz * dz,
    ;
    lemma_fundamental_div_mod(sx, 0x100000);
    lemma_mod_bound(sx, 0x100000);
    lemma_fundamental_div_mod(sy, 0x100000);
    lemma_mod_bound(sy, 0x100000);
    lemma_fundamental_div_mod(sz, 0x100000);
    lemma_mod_bound(sz, 0x100000);
    let mx = sx / 0x100000;
    let my = sy / 0x100000;
    let mz = sz / 0x100000;
    assert(0 <= mx <= 0x10000000 && 0 <= my <= 0x10000000 && 0 <= mz <= 0x10000000)
        by (nonlinear_arith)
        requires
            0x100000 * mx + sx % 0x100000 == sx,
            0x100000 * my + sy % 0x100000 == sy,
            0x100000 * mz + sz % 0x100000 == sz,
            0 <= sx % 0x100000 < 0x100000,
            0 <= sy % 0x100000 < 0x100000,
            0 <= sz % 0x100000 < 0x100000,
            0 <= sx <= 0x1000000000000,
            0 <= sy <= 0x1000000000000,
            0 <= sz <= 0x1000000000000,
    ;
    assert(fx::SCALE as int == 0x100000 && fx::BOUND as int == 0x80000000 && ONE as int
        == 0x100000);
    assert(spec_mul(v.x, v.x) == mx && spec_mul(v.y, v.y) == my && spec_mul(v.z, v.z) == mz);
    let d = spec_vdot(v, v);
    assert(d == mx + my + mz);
    let q = sx + sy + sz;
    assert(0x100000 * d <= q && q < 0x100000 * d + 0x300000);

    let dsn = d * 0x100000;
    assert(dsn >= 0x400000000);
    let l = spec_vlength(v);
    assert(l == fx::spec_isqrt(dsn));
    fx::lemma_isqrt_bounds(dsn);
    assert(0 <= l && l * l <= dsn && dsn < (l + 1) * (l + 1));
    assert(l >= 0x20000) by (nonlinear_arith)
        requires
            dsn < (l + 1) * (l + 1),
            dsn >= 0x400000000,
            l >= 0,
    ;
    assert(l <= 8 * d) by (nonlinear_arith)
        requires
            l * l <= dsn,
            dsn == d * 0x100000,
            d >= 0x4000,
            l >= 0,
    ;

    lemma_fundamental_div_mod(dx * 0x100000, l);
    lemma_mod_bound(dx * 0x100000, l);
    lemma_fundamental_div_mod(dy * 0x100000, l);
    lemma_mod_bound(dy * 0x100000, l);
    lemma_fundamental_div_mod(dz * 0x100000, l);
    lemma_mod_bound(dz * 0x100000, l);
    let tx = (dx * 0x100000) / l;
    let ty = (dy * 0x100000) / l;
    let tz = (dz * 0x100000) / l;
    assert(l * tx <= dx * 0x100000 && dx * 0x100000 < l * tx + l);
    assert(l * ty <= dy * 0x100000 && dy * 0x100000 < l * ty + l);
    assert(l * tz <= dz * 0x100000 && dz * 0x100000 < l * tz + l);
    assert(0 <= tx <= 0x8000000 && 0 <= ty <= 0x8000000 && 0 <= tz <= 0x8000000)
        by (nonlinear_arith)
        requires
            l * tx <= dx * 0x100000 && dx * 0x100000 < l * tx + l,
            l * ty <= dy * 0x100000 && dy * 0x100000 < l * ty + l,
            l * tz <= dz * 0x100000 && dz * 0x100000 < l * tz + l,
            0 <= dx <= 0x1000000,
            0 <= dy <= 0x1000000,
            0 <= dz <= 0x1000000,
            l >= 0x20000,
    ;
    let n = spec_vnormalize(v);
    assert(fx::spec_abs(l) == l);
    assert(n.x == fx::spec_div(v.x, l) && n.y == fx::spec_div(v.y, l) && n.z == fx::spec_div(
        v.z,
        l,
    ));
    assert(fx::spec_abs(n.x) == tx && fx::spec_abs(n.y) == ty && fx::spec_abs(n.z) == tz);

    // squaring the division bounds, per component
    assert(l * l * (tx * tx) <= sx * 0x10000000000 && sx * 0x10000000000 < l * l * (tx * tx) + l
        * l * (2 * tx + 1)) by (nonlinear_arith)
        requires
            0 <= l * tx <= dx * 0x100000,
            dx * 0x100000 < l * tx + l,
            sx == dx * dx,
            0 <= dx,
            0 <= tx,
            l >= 0x20000,
    ;
    assert(l * l * (ty * ty) <= sy * 0x10000000000 && sy * 0x10000000000 < l * l * (ty * ty) + l
        * l * (2 * ty + 1)) by (nonlinear_arith)
        requires
            0 <= l * ty <= dy * 0x100000,
            dy * 0x100000 < l * ty + l,
            sy == dy * dy,
            0 <= dy,
            0 <= ty,
            l >= 0x20000,
    ;
    assert(l * l * (tz * tz) <= sz * 0x10000000000 && sz * 0x10000000000 < l * l * (tz * tz) + l
        * l * (2 * tz + 1)) by (nonlinear_arith)
        requires
            0 <= l * tz <= dz * 0x100000,
            dz * 0x100000 < l * tz + l,
            sz == dz * dz,
            0 <= dz,
            0 <= tz,
            l >= 0x20000,
    ;
    let nsum = tx * tx + ty * ty + tz * tz;
    let tsum = tx + ty + tz;
    assert(l * l * nsum <= q * 0x10000000000 && q * 0x10000000000 < l * l * (nsum + 2 * tsum + 3))
        by (nonlinear_arith)
        requires
            l * l * (tx * tx) <= sx * 0x10000000000,
            l * l * (ty * ty) <= sy * 0x10000000000,
            l * l * (tz * tz) <= sz * 0x10000000000,
            sx * 0x10000000000 < l * l * (tx * tx) + l * l * (2 * tx + 1),
            sy * 0x10000000000 < l * l * (ty * ty) + l * l * (2 * ty + 1),
            sz * 0x10000000000 < l * l * (tz * tz) + l * l * (2 * tz + 1),
            q == sx + sy + sz,
            nsum == tx * tx + ty * ty + tz * tz,
            tsum == tx + ty + tz,
    ;

    // the normalized components are at most about one unit long
    assert(4 * dsn * nsum <= 7 * (l * l) * nsum && 7 * (l * l) * nsum <= 7 * (q
        * 0x10000000000)) by (nonlinear_arith)
        requires
            dsn < (l + 1) * (l + 1),
            l >= 0x20000,
            nsum >= 0,
            l * l * nsum <= q * 0x10000000000,
    ;
    assert(nsum <= 0x20000000000) by (nonlinear_arith)
        requires
            4 * dsn * nsum <= 7 * (q * 0x10000000000),
            q < 0x100000 * d + 0x300000,
            dsn == d * 0x100000,
            d >= 0x4000,
            nsum >= 0,
    ;
    assert(tx <= 0x200000 && ty <= 0x200000 && tz <= 0x200000) by (nonlinear_arith)
        requires
            nsum == tx * tx + ty * ty + tz * tz,
            nsum <= 0x20000000000,
            0 <= tx,
            0 <= ty,
            0 <= tz,
    ;

    lemma_fundamental_div_mod(tx * tx, 0x100000);
    lemma_mod_bound(tx * tx, 0x100000);
    lemma_fundamental_div_mod(ty * ty, 0x100000);
    lemma_mod_bound(ty * ty, 0x100000);
    lemma_fundamental_div_mod(tz * tz, 0x100000);
    lemma_mod_bound(tz * tz, 0x100000);
    let ux = (tx * tx) / 0x100000;
    let uy = (ty * ty) / 0x100000;
    let uz = (tz * tz) / 0x100000;
    assert(0 <= ux <= 0x400000 && 0 <= uy <= 0x400000 && 0 <= uz <= 0x400000)
        by (nonlinear_arith)
        requires
            0x100000 * ux + (tx * tx) % 0x100000 == tx * tx,
            0x100000 * uy + (ty * ty) % 0x100000 == ty * ty,
            0x100000 * uz + (tz * tz) % 0x100000 == tz * tz,
            0 <= (tx * tx) % 0x100000 < 0x100000,
            0 <= (ty * ty) % 0x100000 < 0x100000,
            0 <= (tz * tz) % 0x100000 < 0x100000,
            0 <= tx <= 0x200000,
            0 <= ty <= 0x200000,
            0 <= tz <= 0x200000,
    ;
    assert(spec_mul(n.x, n.x) == ux && spec_mul(n.y, n.y) == uy && spec_mul(n.z, n.z) == uz);
    let dotn = spec_vdot(n, n);
    assert(dotn == ux + uy + uz);
    assert(0x100000 * dotn <= nsum && nsum < 0x100000 * dotn + 0x300000);

    // the upper half of the band
    assert((l + 1) * (l + 1) == l * l + 2 * l + 1) by (nonlinear_arith);
    assert(l * l >= dsn - 2 * l - 1);
    assert(2 * l + 1 <= 17 * d);
    assert((dsn - 2 * l - 1) * (0x100000 * dotn) <= (l * l) * (0x100000 * dotn) && (l * l) * (
    0x100000 * dotn) <= (l * l) * nsum) by (nonlinear_arith)
        requires
            l * l >= dsn - 2 * l - 1,
            0x100000 * dotn <= nsum,
            dotn >= 0,
            l * l >= 0,
    ;
    assert(q * 0x10000000000 < d * 0x1000000000000000 + 3 * 0x1000000000000000)
        by (nonlinear_arith)
        requires
            q < 0x100000 * d + 0x300000,
    ;
    assert(dotn <= 0x100000 + 512) by (nonlinear_arith)
        requires
            (dsn - 2 * l - 1) * (0x100000 * dotn) <= (l * l) * nsum,
            l * l * nsum <= q * 0x10000000000,
            q * 0x10000000000 < d * 0x1000000000000000 + 3 * 0x1000000000000000,
            dsn == d * 0x100000,
            2 * l + 1 <= 17 * d,
            d >= 0x4000,
            dotn >= 0,
            l >= 0,
    ;

    // the lower half of the band
    assert(q * 0x10000000000 >= (l * l) * 0x10000000000) by (nonlinear_arith)
        requires
            q >= dsn,
            dsn >= l * l,
    ;
    assert(nsum + 2 * tsum + 3 > 0x10000000000) by (nonlinear_arith)
        requires
            q * 0x10000000000 < l * l * (nsum + 2 * tsum + 3),
            q * 0x10000000000 >= (l * l) * 0x10000000000,
            l * l > 0,
    ;
    assert(tsum <= 0x600000);
    assert(nsum > 0x10000000000 - 0xC00000 - 3);
    assert(dotn >= 0x100000 - 16);
}

/// Mirror reflection of a direction about a surface normal.
pub fn reflect(d: V3, n: V3) -> (r: V3)
    requires
        d.wf(),
        n.wf(),
    ensures
        r.view() == spec_vreflect(d.view(), n.view()),
        r.wf(),
{
    let dn: i64 = d.dot(n);
    let k: i64 = cadd(dn, dn);
    d.sub(n.scale(k))
}

} // verus!
