//! The three-component value type used for points, directions and colors.
//!
//! A `Vec3` holds three fixed-point scalars. Its mathematical model is `V3`,
//! a triple of unbounded integers; every operation's contract states the
//! exact triple it returns, over the fixed-point spec functions.

use vstd::prelude::*;

use crate::fixed::fabs;
use crate::fixed::fadd;
use crate::fixed::fdiv;
use crate::fixed::fmin;
use crate::fixed::fmul;
use crate::fixed::fneg;
use crate::fixed::fsqrt;
use crate::fixed::fsub;
use crate::fixed::fx_abs;
use crate::fixed::fx_add;
use crate::fixed::fx_div;
use crate::fixed::fx_min;
use crate::fixed::fx_mul;
use crate::fixed::fx_neg;
use crate::fixed::fx_ok;
use crate::fixed::fx_sqrt;
use crate::fixed::fx_sub;
use crate::fixed::clamp_fx;
use crate::fixed::clamp_range;
use crate::fixed::lemma_fmul_square_nonneg;
use crate::fixed::FX_ONE;
use crate::fixed::SCALE;
use crate::rng::next_state;
use crate::rng::rand_fx;
use crate::rng::Rng;

verus! {

/// A vector used as a location in space.
pub type Point = Vec3;

/// A vector used as an RGB color, each channel nominally in `[0, 1]`.
pub type Color = Vec3;

/// How many draws the rejection samplers make before falling back to a
/// fixed in-range value; the chance of exhausting them is negligible, but a
/// bound is what makes the samplers total.
pub const SAMPLE_TRIES: u32 = 64;

/// Just under one: the top of the channel clamp before byte conversion,
/// so that a full channel maps to 255.
pub const COLOR_CLAMP: i64 = 65470;

/// One color channel's byte: divide by the sample count (`denom` is the
/// count as a raw scalar, so the quotient is the exact truncated average),
/// gamma-correct by square root, clamp to just under one, and widen to the
/// byte range.
pub open spec fn channel_byte_spec(ch: int, denom: int) -> int {
    clamp_range(fsqrt(fdiv(ch, denom)), 0, COLOR_CLAMP as int) / 256
}

/// The three bytes a color produces after averaging `spp` samples.
pub open spec fn rgb_spec(v: V3, spp: u32) -> Seq<u8> {
    let denom = (spp as int) * (SCALE as int);
    seq![
        channel_byte_spec(v.x, denom) as u8,
        channel_byte_spec(v.y, denom) as u8,
        channel_byte_spec(v.z, denom) as u8,
    ]
}

/// Mathematical model of a vector: a triple of unbounded integers, each
/// standing for a fixed-point scalar.
pub ghost struct V3 {
    pub x: int,
    pub y: int,
    pub z: int,
}

/// Every component lies in the symmetric representable range.
pub open spec fn vwf(v: V3) -> bool {
    fx_ok(v.x) && fx_ok(v.y) && fx_ok(v.z)
}

pub open spec fn vzero() -> V3 {
    V3 { x: 0, y: 0, z: 0 }
}

pub open spec fn vadd(a: V3, b: V3) -> V3 {
    V3 { x: fadd(a.x, b.x), y: fadd(a.y, b.y), z: fadd(a.z, b.z) }
}

pub open spec fn vsub(a: V3, b: V3) -> V3 {
    V3 { x: fsub(a.x, b.x), y: fsub(a.y, b.y), z: fsub(a.z, b.z) }
}

pub open spec fn vneg(a: V3) -> V3 {
    V3 { x: fneg(a.x), y: fneg(a.y), z: fneg(a.z) }
}

/// Component-wise product, as colors attenuate.
pub open spec fn vmul(a: V3, b: V3) -> V3 {
    V3 { x: fmul(a.x, b.x), y: fmul(a.y, b.y), z: fmul(a.z, b.z) }
}

/// Scalar multiple.
pub open spec fn vscale(t: int, a: V3) -> V3 {
    V3 { x: fmul(t, a.x), y: fmul(t, a.y), z: fmul(t, a.z) }
}

/// Component-wise quotient.
pub open spec fn vdiv(a: V3, b: V3) -> V3 {
    V3 { x: fdiv(a.x, b.x), y: fdiv(a.y, b.y), z: fdiv(a.z, b.z) }
}

/// Scalar quotient; a zero divisor yields the zero vector.
pub open spec fn vdiv_s(a: V3, d: int) -> V3 {
    V3 { x: fdiv(a.x, d), y: fdiv(a.y, d), z: fdiv(a.z, d) }
}

pub open spec fn vdot(a: V3, b: V3) -> int {
    fadd(fadd(fmul(a.x, b.x), fmul(a.y, b.y)), fmul(a.z, b.z))
}

pub open spec fn vcross(a: V3, b: V3) -> V3 {
    V3 {
        x: fsub(fmul(a.y, b.z), fmul(a.z, b.y)),
        y: fneg(fsub(fmul(a.x, b.z), fmul(a.z, b.x))),
        z: fsub(fmul(a.x, b.y), fmul(a.y, b.x)),
    }
}

pub open spec fn vlen_sq(a: V3) -> int {
    vdot(a, a)
}

/// The Euclidean length, computed exactly on the raw components: the sum
/// of squares is not rescaled before the root, so short vectors keep their
/// true length (the truncating `vlen_sq` is not an intermediate here).
pub open spec fn vlen(a: V3) -> int {
    crate::fixed::flen3(a.x, a.y, a.z)
}

/// An RGB color with every channel inside `[0, 1]`.
pub open spec fn color_wf(v: V3) -> bool {
    0 <= v.x <= FX_ONE && 0 <= v.y <= FX_ONE && 0 <= v.z <= FX_ONE
}

/// Unit-length rescaling; the zero vector stays zero, so the function is
/// total.
pub open spec fn vunit(a: V3) -> V3 {
    if vlen(a) == 0 {
        vzero()
    } else {
        vdiv_s(a, vlen(a))
    }
}

/// Mirror reflection of `v` about the normal `n`: `v - 2 (v . n) n`.
pub open spec fn vreflect(v: V3, n: V3) -> V3 {
    vsub(v, vscale(fadd(vdot(v, n), vdot(v, n)), n))
}

/// Snell refraction of the unit direction `uv` at the normal `n`, with the
/// given ratio of refractive indices.
pub open spec fn vrefract(uv: V3, n: V3, etai_on_etat: int) -> V3 {
    let cos_th = fmin(vdot(vneg(uv), n), FX_ONE as int);
    let r_perp = vscale(etai_on_etat, vadd(uv, vscale(cos_th, n)));
    let r_prll = vscale(fneg(fsqrt(fabs(fsub(FX_ONE as int, vlen_sq(r_perp))))), n);
    vadd(r_perp, r_prll)
}

/// The state after three draws.
pub open spec fn state3(s: u64) -> u64 {
    next_state(next_state(next_state(s)))
}

/// The state after two draws.
pub open spec fn state2(s: u64) -> u64 {
    next_state(next_state(s))
}

/// One draw of a vector with each component uniform in `[min, max)`.
pub open spec fn rand_v3(s: u64, min: int, max: int) -> V3 {
    V3 {
        x: rand_fx(s, min, max),
        y: rand_fx(next_state(s), min, max),
        z: rand_fx(state2(s), min, max),
    }
}

/// Rejection sampling for a point in the unit ball: up to `tries` draws in
/// the cube `[-1, 1)^3`, the first whose squared length is below one wins;
/// if every draw misses, the origin stands in.
pub open spec fn sample_ball_spec(s: u64, tries: nat) -> (V3, u64)
    decreases tries,
{
    if tries == 0 {
        (vzero(), s)
    } else {
        let v = rand_v3(s, -(FX_ONE as int), FX_ONE as int);
        if vlen_sq(v) < FX_ONE {
            (v, state3(s))
        } else {
            sample_ball_spec(state3(s), (tries - 1) as nat)
        }
    }
}

/// Rejection sampling for a point in the unit disk of the xy-plane.
pub open spec fn sample_disk_spec(s: u64, tries: nat) -> (V3, u64)
    decreases tries,
{
    if tries == 0 {
        (vzero(), s)
    } else {
        let v = V3 {
            x: rand_fx(s, -(FX_ONE as int), FX_ONE as int),
            y: rand_fx(next_state(s), -(FX_ONE as int), FX_ONE as int),
            z: 0,
        };
        if vlen_sq(v) < FX_ONE {
            (v, state2(s))
        } else {
            sample_disk_spec(state2(s), (tries - 1) as nat)
        }
    }
}

/// A unit-ball sample rescaled to the sphere surface; the origin fallback
/// stays the zero vector.
pub open spec fn rand_unit_spec(s: u64) -> (V3, u64) {
    let r = sample_ball_spec(s, SAMPLE_TRIES as nat);
    (vunit(r.0), r.1)
}

/// A unit-ball sample, negated when it falls below the given normal's
/// hemisphere.
pub open spec fn rand_hemisphere_spec(s: u64, normal: V3) -> (V3, u64) {
    let r = sample_ball_spec(s, SAMPLE_TRIES as nat);
    if vdot(r.0, normal) > 0 {
        r
    } else {
        (vneg(r.0), r.1)
    }
}

/// The length is zero exactly for the zero vector.
pub proof fn lemma_vlen_zero_iff_zero(a: V3)
    ensures
        (vlen(a) == 0) <==> (a == vzero()),
{
    assert(a.x * a.x >= 0 && a.y * a.y >= 0 && a.z * a.z >= 0) by (nonlinear_arith);
    let sum = a.x * a.x + a.y * a.y + a.z * a.z;
    crate::fixed::lemma_sqrt_floor_correct(sum as nat);
    if a == vzero() {
        assert(sum == 0);
        assert(crate::fixed::sqrt_floor(0nat) == 0);
        assert(vlen(a) == 0);
    } else {
        assert(a.x != 0 || a.y != 0 || a.z != 0);
        assert(a.x != 0 ==> a.x * a.x >= 1) by (nonlinear_arith);
        assert(a.y != 0 ==> a.y * a.y >= 1) by (nonlinear_arith);
        assert(a.z != 0 ==> a.z * a.z >= 1) by (nonlinear_arith);
        assert(sum >= 1);
        assert((0 + 1) * (0 + 1) == 1nat) by (nonlinear_arith);
        assert(crate::fixed::sqrt_floor(sum as nat) >= 1);
        assert(vlen(a) != 0);
    }
}

/// Every component of a unit-rescaled vector lies within one: the exact
/// length is at least each component's magnitude.
pub proof fn lemma_vunit_in_unit_range(a: V3)
    requires
        vwf(a),
    ensures
        -(FX_ONE as int) <= vunit(a).x <= FX_ONE as int,
        -(FX_ONE as int) <= vunit(a).y <= FX_ONE as int,
        -(FX_ONE as int) <= vunit(a).z <= FX_ONE as int,
{
    if vlen(a) != 0 {
        assert(a.x * a.x >= 0 && a.y * a.y >= 0 && a.z * a.z >= 0) by (nonlinear_arith);
        let sum = a.x * a.x + a.y * a.y + a.z * a.z;
        crate::fixed::lemma_sqrt_floor_exact_square(a.x);
        crate::fixed::lemma_sqrt_floor_exact_square(a.y);
        crate::fixed::lemma_sqrt_floor_exact_square(a.z);
        crate::fixed::lemma_sqrt_floor_monotone((a.x * a.x) as nat, sum as nat);
        crate::fixed::lemma_sqrt_floor_monotone((a.y * a.y) as nat, sum as nat);
        crate::fixed::lemma_sqrt_floor_monotone((a.z * a.z) as nat, sum as nat);
        let l = vlen(a);
        assert(crate::fixed::iabs(a.x) <= l && crate::fixed::iabs(a.y) <= l && crate::fixed::iabs(
            a.z,
        ) <= l);
        crate::fixed::lemma_fdiv_magnitude(a.x, l);
        crate::fixed::lemma_fdiv_magnitude(a.y, l);
        crate::fixed::lemma_fdiv_magnitude(a.z, l);
    }
}

/// The squared length of any vector is nonnegative.
pub proof fn lemma_vlen_sq_nonneg(a: V3)
    ensures
        vlen_sq(a) >= 0,
{
    lemma_fmul_square_nonneg(a.x);
    lemma_fmul_square_nonneg(a.y);
    lemma_fmul_square_nonneg(a.z);
}

/// With ratio one, a unit normal and a head-on incoming unit direction —
/// the exact opposite of the normal — refraction returns the direction
/// unchanged: the ray passes straight through.
pub proof fn lemma_vrefract_unit_ratio_head_on(n: V3)
    requires
        vwf(n),
        vlen_sq(n) == FX_ONE,
    ensures
        vrefract(vneg(n), n, FX_ONE as int) == vneg(n),
{
    let uv = vneg(n);
    assert(vneg(uv) == n);
    crate::fixed::lemma_fmul_one(n.x);
    crate::fixed::lemma_fmul_one(n.y);
    crate::fixed::lemma_fmul_one(n.z);
    crate::fixed::lemma_fmul_one(0);
    assert(vadd(uv, vscale(FX_ONE as int, n)) == vzero());
    crate::fixed::lemma_fsqrt_one();
    crate::fixed::lemma_fmul_neg_one(n.x);
    crate::fixed::lemma_fmul_neg_one(n.y);
    crate::fixed::lemma_fmul_neg_one(n.z);
}

/// Negating the right operand negates the dot product exactly.
pub proof fn lemma_vdot_neg_right(a: V3, b: V3)
    requires
        vwf(b),
    ensures
        vdot(a, vneg(b)) == fneg(vdot(a, b)),
{
    crate::fixed::lemma_fmul_neg_right(a.x, b.x);
    crate::fixed::lemma_fmul_neg_right(a.y, b.y);
    crate::fixed::lemma_fmul_neg_right(a.z, b.z);
    crate::fixed::lemma_fadd_neg(fmul(a.x, b.x), fmul(a.y, b.y));
    crate::fixed::lemma_fadd_neg(fadd(fmul(a.x, b.x), fmul(a.y, b.y)), fmul(a.z, b.z));
}

/// A fixed-point vector: each component is an `i64` raw value standing for
/// `raw / SCALE`.
#[derive(Clone, Copy, Debug, PartialEq, Eq, Structural)]
pub struct Vec3 {
    pub x: i64,
    pub y: i64,
    pub z: i64,
}

impl View for Vec3 {
    type V = V3;

    open spec fn view(&self) -> V3 {
        V3 { x: self.x as int, y: self.y as int, z: self.z as int }
    }
}

impl Vec3 {
    /// Build a vector from raw components, saturated to the symmetric range.
    pub fn new(x: i64, y: i64, z: i64) -> (r: Self)
        ensures
            r@ == (V3 {
                x: clamp_fx(x as int),
                y: clamp_fx(y as int),
                z: clamp_fx(z as int),
            }),
            vwf(r@),
    {
        let mut v = Vec3 { x, y, z };
        if x == i64::MIN {
            v.x = -i64::MAX;
        }
        if y == i64::MIN {
            v.y = -i64::MAX;
        }
        if z == i64::MIN {
            v.z = -i64::MAX;
        }
        v
    }

    pub fn x(&self) -> (r: i64)
        ensures
            r as int == self@.x,
    {
        self.x
    }

    pub fn y(&self) -> (r: i64)
        ensures
            r as int == self@.y,
    {
        self.y
    }

    pub fn z(&self) -> (r: i64)
        ensures
            r as int == self@.z,
    {
        self.z
    }

    pub fn neg(&self) -> (r: Self)
        ensures
            r@ == vneg(self@),
            vwf(r@),
    {
        Vec3 { x: fx_neg(self.x), y: fx_neg(self.y), z: fx_neg(self.z) }
    }

    pub fn add(&self, rhs: &Self) -> (r: Self)
        ensures
            r@ == vadd(self@, rhs@),
            vwf(r@),
    {
        Vec3 { x: fx_add(self.x, rhs.x), y: fx_add(self.y, rhs.y), z: fx_add(self.z, rhs.z) }
    }

    pub fn sub(&self, rhs: &Self) -> (r: Self)
        ensures
            r@ == vsub(self@, rhs@),
            vwf(r@),
    {
        Vec3 { x: fx_sub(self.x, rhs.x), y: fx_sub(self.y, rhs.y), z: fx_sub(self.z, rhs.z) }
    }

    /// Component-wise product.
    pub fn mul(&self, rhs: &Self) -> (r: Self)
        ensures
            r@ == vmul(self@, rhs@),
            vwf(r@),
    {
        Vec3 { x: fx_mul(self.x, rhs.x), y: fx_mul(self.y, rhs.y), z: fx_mul(self.z, rhs.z) }
    }

    /// Scalar multiple.
    pub fn scale(&self, t: i64) -> (r: Self)
        ensures
            r@ == vscale(t as int, self@),
            vwf(r@),
    {
        Vec3 { x: fx_mul(t, self.x), y: fx_mul(t, self.y), z: fx_mul(t, self.z) }
    }

    /// Component-wise quotient.
    pub fn div(&self, rhs: &Self) -> (r: Self)
        requires
            rhs@.x != 0,
            rhs@.y != 0,
            rhs@.z != 0,
        ensures
            r@ == vdiv(self@, rhs@),
            vwf(r@),
    {
        Vec3 { x: fx_div(self.x, rhs.x), y: fx_div(self.y, rhs.y), z: fx_div(self.z, rhs.z) }
    }

    /// Scalar quotient.
    pub fn div_s(&self, d: i64) -> (r: Self)
        requires
            d != 0,
        ensures
            r@ == vdiv_s(self@, d as int),
            vwf(r@),
    {
        Vec3 { x: fx_div(self.x, d), y: fx_div(self.y, d), z: fx_div(self.z, d) }
    }

    pub fn dot(&self, rhs: &Self) -> (r: i64)
        ensures
            r as int == vdot(self@, rhs@),
            fx_ok(r as int),
    {
        fx_add(fx_add(fx_mul(self.x, rhs.x), fx_mul(self.y, rhs.y)), fx_mul(self.z, rhs.z))
    }

    pub fn cross(&self, rhs: &Self) -> (r: Self)
        ensures
            r@ == vcross(self@, rhs@),
            vwf(r@),
    {
        Vec3 {
            x: fx_sub(fx_mul(self.y, rhs.z), fx_mul(self.z, rhs.y)),
            y: fx_neg(fx_sub(fx_mul(self.x, rhs.z), fx_mul(self.z, rhs.x))),
            z: fx_sub(fx_mul(self.x, rhs.y), fx_mul(self.y, rhs.x)),
        }
    }

    pub fn len_squared(&self) -> (r: i64)
        ensures
            r as int == vlen_sq(self@),
            r >= 0,
    {
        proof {
            lemma_vlen_sq_nonneg(self@);
        }
        self.dot(self)
    }

    pub fn len(&self) -> (r: i64)
        ensures
            r as int == vlen(self@),
            r >= 0,
    {
        crate::fixed::fx_len3(self.x, self.y, self.z)
    }

    /// Whether every channel lies inside `[0, 1]`.
    pub fn is_color(&self) -> (r: bool)
        ensures
            r == color_wf(self@),
    {
        self.x >= 0 && self.x <= FX_ONE && self.y >= 0 && self.y <= FX_ONE && self.z >= 0
            && self.z <= FX_ONE
    }

    pub fn is_empty(&self) -> (r: bool)
        ensures
            r == (vlen(self@) == 0),
            r == (self@ == vzero()),
    {
        proof {
            lemma_vlen_zero_iff_zero(self@);
        }
        self.len() == 0
    }

    /// Unit-length rescaling; the zero vector stays zero.
    pub fn unit(&self) -> (r: Self)
        ensures
            r@ == vunit(self@),
            vwf(r@),
    {
        let l = self.len();
        if l == 0 {
            Vec3 { x: 0, y: 0, z: 0 }
        } else {
            self.div_s(l)
        }
    }

    /// Mirror reflection of `v` about the normal `n`.
    pub fn reflect(v: &Self, n: &Self) -> (r: Self)
        ensures
            r@ == vreflect(v@, n@),
            vwf(r@),
    {
        let d = v.dot(n);
        v.sub(&n.scale(fx_add(d, d)))
    }

    /// One draw of a vector with each component uniform in `[0, 1)`.
    pub fn random(rng: &mut Rng) -> (r: Self)
        ensures
            r@ == rand_v3(old(rng).state, 0, FX_ONE as int),
            final(rng).state == state3(old(rng).state),
            vwf(r@),
            0 <= r@.x < FX_ONE && 0 <= r@.y < FX_ONE && 0 <= r@.z < FX_ONE,
    {
        let x = rng.next_fx(0, FX_ONE);
        let y = rng.next_fx(0, FX_ONE);
        let z = rng.next_fx(0, FX_ONE);
        Vec3 { x, y, z }
    }

    /// One draw of a vector with each component uniform in `[min, max)`.
    pub fn random_range(rng: &mut Rng, min: i64, max: i64) -> (r: Self)
        requires
            min < max,
            fx_ok(min as int),
            max - min <= 0xffff_ffff,
        ensures
            r@ == rand_v3(old(rng).state, min as int, max as int),
            final(rng).state == state3(old(rng).state),
            vwf(r@),
            min <= r@.x < max && min <= r@.y < max && min <= r@.z < max,
    {
        let x = rng.next_fx(min, max);
        let y = rng.next_fx(min, max);
        let z = rng.next_fx(min, max);
        Vec3 { x, y, z }
    }

    /// Up to `tries` rejection draws for a point in the unit ball.
    fn sample_ball(rng: &mut Rng, tries: u32) -> (r: Self)
        ensures
            r@ == sample_ball_spec(old(rng).state, tries as nat).0,
            final(rng).state == sample_ball_spec(old(rng).state, tries as nat).1,
            vlen_sq(r@) < FX_ONE,
            vwf(r@),
        decreases tries,
    {
        if tries == 0 {
            Vec3 { x: 0, y: 0, z: 0 }
        } else {
            let v = Self::random_range(rng, -FX_ONE, FX_ONE);
            if v.len_squared() < FX_ONE {
                v
            } else {
                Self::sample_ball(rng, tries - 1)
            }
        }
    }

    /// A uniform point in the unit ball, by rejection sampling.
    pub fn random_in_unit_sphere(rng: &mut Rng) -> (r: Self)
        ensures
            r@ == sample_ball_spec(old(rng).state, SAMPLE_TRIES as nat).0,
            final(rng).state == sample_ball_spec(old(rng).state, SAMPLE_TRIES as nat).1,
            vlen_sq(r@) < FX_ONE,
            vwf(r@),
    {
        Self::sample_ball(rng, SAMPLE_TRIES)
    }

    /// Up to `tries` rejection draws for a point in the unit disk.
    fn sample_disk(rng: &mut Rng, tries: u32) -> (r: Self)
        ensures
            r@ == sample_disk_spec(old(rng).state, tries as nat).0,
            final(rng).state == sample_disk_spec(old(rng).state, tries as nat).1,
            vlen_sq(r@) < FX_ONE,
            vwf(r@),
        decreases tries,
    {
        if tries == 0 {
            Vec3 { x: 0, y: 0, z: 0 }
        } else {
            let x = rng.next_fx(-FX_ONE, FX_ONE);
            let y = rng.next_fx(-FX_ONE, FX_ONE);
            let v = Vec3 { x, y, z: 0 };
            if v.len_squared() < FX_ONE {
                v
            } else {
                Self::sample_disk(rng, tries - 1)
            }
        }
    }

    /// A uniform point in the unit disk of the xy-plane, for lens sampling.
    pub fn random_in_unit_disk(rng: &mut Rng) -> (r: Self)
        ensures
            r@ == sample_disk_spec(old(rng).state, SAMPLE_TRIES as nat).0,
            final(rng).state == sample_disk_spec(old(rng).state, SAMPLE_TRIES as nat).1,
            vlen_sq(r@) < FX_ONE,
            vwf(r@),
    {
        Self::sample_disk(rng, SAMPLE_TRIES)
    }

    /// A uniform direction on the unit sphere: a unit-ball sample rescaled
    /// to unit length.
    pub fn random_unit(rng: &mut Rng) -> (r: Self)
        ensures
            r@ == rand_unit_spec(old(rng).state).0,
            final(rng).state == rand_unit_spec(old(rng).state).1,
            vwf(r@),
    {
        let p = Self::sample_ball(rng, SAMPLE_TRIES);
        p.unit()
    }

    /// A unit-ball sample, negated when it falls below the hemisphere of
    /// the given normal.
    pub fn random_in_hemisphere(normal: &Vec3, rng: &mut Rng) -> (r: Self)
        ensures
            r@ == rand_hemisphere_spec(old(rng).state, normal@).0,
            final(rng).state == rand_hemisphere_spec(old(rng).state, normal@).1,
            vwf(r@),
    {
        let p = Self::sample_ball(rng, SAMPLE_TRIES);
        if p.dot(normal) > 0 {
            p
        } else {
            p.neg()
        }
    }

    /// Snell refraction of the unit direction `uv` at the normal `n`.
    pub fn refract(uv: &Self, n: &Self, etai_on_etat: i64) -> (r: Self)
        ensures
            r@ == vrefract(uv@, n@, etai_on_etat as int),
            vwf(r@),
    {
        let cos_th = fx_min(uv.neg().dot(n), FX_ONE);
        let r_perp = uv.add(&n.scale(cos_th)).scale(etai_on_etat);
        let r_prll = n.scale(fx_neg(fx_sqrt(fx_abs(fx_sub(FX_ONE, r_perp.len_squared())))));
        r_perp.add(&r_prll)
    }
}

/// One channel of `rgb`.
fn channel_byte(c: i64, denom: i64) -> (b: u8)
    requires
        denom != 0,
    ensures
        b as int == channel_byte_spec(c as int, denom as int),
{
    let root = fx_sqrt(fx_div(c, denom));
    let cl = if root > COLOR_CLAMP {
        COLOR_CLAMP
    } else {
        root
    };
    ((cl as u64) / 256) as u8
}

impl Vec3 {
    /// Turn an accumulated color into one image pixel: divide by the
    /// number of samples, gamma-correct for gamma two, clamp, and scale to
    /// bytes.
    pub fn rgb(&self, spp: u32) -> (r: [u8; 3])
        requires
            spp > 0,
        ensures
            r@ == rgb_spec(self@, spp),
    {
        let spp_fx: i64 = (spp as i64) * SCALE;
        let bytes = [
            channel_byte(self.x, spp_fx),
            channel_byte(self.y, spp_fx),
            channel_byte(self.z, spp_fx),
        ];
        proof {
            assert(bytes@ =~= rgb_spec(self@, spp));
        }
        bytes
    }
}

impl Default for Vec3 {
    fn default() -> (r: Self)
        ensures
            r@ == vzero(),
    {
        Vec3 { x: 0, y: 0, z: 0 }
    }
}

} // verus!
