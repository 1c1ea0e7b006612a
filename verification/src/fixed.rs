//! Saturating Q47.16 fixed-point scalars.
//!
//! A scalar is an `i64` raw value standing for `raw / SCALE`. Addition and
//! subtraction are exact up to saturation; multiplication and division
//! rescale with truncation toward zero; every operation clamps its result to
//! the symmetric range `[-FX_MAX, FX_MAX]`, so negation is always exact and
//! no operation can overflow or panic.

use vstd::prelude::*;

verus! {

/// Raw values stand for `raw / SCALE`; `SCALE` itself is the number one.
pub const SCALE: i64 = 65536;

/// The number one.
pub const FX_ONE: i64 = 65536;

/// Largest raw value a scalar may hold; the range is symmetric in `FX_MAX`.
pub const FX_MAX: i64 = 0x7fff_ffff_ffff_ffff;

/// Absolute value over the mathematical integers.
pub open spec fn iabs(x: int) -> int {
    if x < 0 {
        -x
    } else {
        x
    }
}

/// Saturation to the symmetric representable range.
pub open spec fn clamp_fx(x: int) -> int {
    if x > FX_MAX {
        FX_MAX as int
    } else if x < -FX_MAX {
        -(FX_MAX as int)
    } else {
        x
    }
}

/// Division truncating toward zero, as the hardware divides; zero divisor
/// yields zero so that the function is total.
pub open spec fn tdiv(n: int, d: int) -> int {
    if d == 0 {
        0
    } else if (n < 0) == (d < 0) {
        iabs(n) / iabs(d)
    } else {
        -(iabs(n) / iabs(d))
    }
}

/// Fixed-point addition: exact, then saturated.
pub open spec fn fadd(a: int, b: int) -> int {
    clamp_fx(a + b)
}

/// Fixed-point subtraction: exact, then saturated.
pub open spec fn fsub(a: int, b: int) -> int {
    clamp_fx(a - b)
}

/// Fixed-point negation: exact, then saturated.
pub open spec fn fneg(a: int) -> int {
    clamp_fx(-a)
}

/// Fixed-point multiplication: the exact product rescaled with truncation,
/// then saturated.
pub open spec fn fmul(a: int, b: int) -> int {
    clamp_fx(tdiv(a * b, SCALE as int))
}

/// Fixed-point division: the exact quotient rescaled with truncation, then
/// saturated. A zero divisor yields zero.
pub open spec fn fdiv(a: int, b: int) -> int {
    clamp_fx(tdiv(a * (SCALE as int), b))
}

/// Whether a raw value lies in the symmetric range, so that its negation is
/// exact. Every operation returns such a value.
pub open spec fn fx_ok(a: int) -> bool {
    -FX_MAX <= a <= FX_MAX
}

/// Clamp into a closed interval.
pub open spec fn clamp_range(x: int, lo: int, hi: int) -> int {
    if x < lo {
        lo
    } else if x > hi {
        hi
    } else {
        x
    }
}

/// The smaller of two scalars.
pub open spec fn fmin(a: int, b: int) -> int {
    if a <= b {
        a
    } else {
        b
    }
}

/// Fixed-point absolute value, saturated.
pub open spec fn fabs(a: int) -> int {
    clamp_fx(iabs(a))
}

/// Saturate a wide intermediate result back to a scalar.
fn clamp_i128(x: i128) -> (r: i64)
    ensures
        r as int == clamp_fx(x as int),
{
    if x > FX_MAX as i128 {
        FX_MAX
    } else if x < -(FX_MAX as i128) {
        -FX_MAX
    } else {
        x as i64
    }
}

pub fn fx_add(a: i64, b: i64) -> (r: i64)
    ensures
        r as int == fadd(a as int, b as int),
        fx_ok(r as int),
{
    clamp_i128(a as i128 + b as i128)
}

pub fn fx_sub(a: i64, b: i64) -> (r: i64)
    ensures
        r as int == fsub(a as int, b as int),
        fx_ok(r as int),
{
    clamp_i128(a as i128 - b as i128)
}

pub fn fx_neg(a: i64) -> (r: i64)
    ensures
        r as int == fneg(a as int),
        fx_ok(r as int),
{
    clamp_i128(-(a as i128))
}

/// Saturate a nonnegative wide quotient, with its sign, back to a scalar.
fn clamp_signed_u128(q: u128, neg: bool) -> (r: i64)
    ensures
        r as int == clamp_fx(if neg { -(q as int) } else { q as int }),
{
    if q > FX_MAX as u128 {
        if neg {
            -FX_MAX
        } else {
            FX_MAX
        }
    } else {
        if neg {
            -(q as i64)
        } else {
            q as i64
        }
    }
}

pub fn fx_mul(a: i64, b: i64) -> (r: i64)
    ensures
        r as int == fmul(a as int, b as int),
        fx_ok(r as int),
{
    proof {
        assert(-0x8000_0000_0000_0000 <= a as int <= 0x7fff_ffff_ffff_ffff
            && -0x8000_0000_0000_0000 <= b as int <= 0x7fff_ffff_ffff_ffff
            ==> -0x4000_0000_0000_0000_0000_0000_0000_0000 <= (a as int) * (b as int)
                <= 0x4000_0000_0000_0000_0000_0000_0000_0000) by (nonlinear_arith);
    }
    let p: i128 = (a as i128) * (b as i128);
    if p >= 0 {
        clamp_signed_u128((p as u128) / (SCALE as u128), false)
    } else {
        clamp_signed_u128(((-p) as u128) / (SCALE as u128), true)
    }
}

pub fn fx_div(a: i64, b: i64) -> (r: i64)
    requires
        b != 0,
    ensures
        r as int == fdiv(a as int, b as int),
        fx_ok(r as int),
{
    let n: i128 = (a as i128) * (SCALE as i128);
    let neg: bool = (n < 0) != (b < 0);
    let nm: u128 = if n >= 0 {
        n as u128
    } else {
        (-n) as u128
    };
    let dm: u128 = if b >= 0 {
        b as u128
    } else {
        (-(b as i128)) as u128
    };
    clamp_signed_u128(nm / dm, neg)
}

pub fn fx_min(a: i64, b: i64) -> (r: i64)
    ensures
        r as int == fmin(a as int, b as int),
{
    if a <= b {
        a
    } else {
        b
    }
}

pub fn fx_abs(a: i64) -> (r: i64)
    ensures
        r as int == fabs(a as int),
        r >= 0,
        fx_ok(r as int),
{
    if a >= 0 {
        a
    } else {
        clamp_i128(-(a as i128))
    }
}

/// For a positive divisor, fixed-point division is monotone in the
/// numerator: truncation toward zero preserves order.
pub proof fn lemma_fdiv_monotone(n1: int, n2: int, d: int)
    requires
        n1 <= n2,
        d > 0,
    ensures
        fdiv(n1, d) <= fdiv(n2, d),
{
    let m1 = n1 * (SCALE as int);
    let m2 = n2 * (SCALE as int);
    if m1 >= 0 {
        vstd::arithmetic::div_mod::lemma_div_is_ordered(m1, m2, d);
    } else if m2 < 0 {
        vstd::arithmetic::div_mod::lemma_div_is_ordered(-m2, -m1, d);
    } else {
        vstd::arithmetic::div_mod::lemma_div_pos_is_pos(-m1, d);
        vstd::arithmetic::div_mod::lemma_div_pos_is_pos(m2, d);
    }
}

/// The product of two scalars in the unit interval stays in it: it is
/// nonnegative and no greater than either factor.
pub proof fn lemma_fmul_unit_interval(a: int, b: int)
    requires
        0 <= a <= FX_ONE,
        0 <= b <= FX_ONE,
    ensures
        0 <= fmul(a, b) <= a,
        fmul(a, b) <= b,
{
    assert(0 <= a * b && a * b <= a * 65536 && a * b <= b * 65536 && a * 65536 == 65536 * a && b
        * 65536 == 65536 * b) by (nonlinear_arith)
        requires
            0 <= a <= 65536,
            0 <= b <= 65536,
    ;
    vstd::arithmetic::div_mod::lemma_div_is_ordered(a * b, 65536 * a, SCALE as int);
    vstd::arithmetic::div_mod::lemma_div_is_ordered(a * b, 65536 * b, SCALE as int);
    vstd::arithmetic::div_mod::lemma_div_multiples_vanish(a, SCALE as int);
    vstd::arithmetic::div_mod::lemma_div_multiples_vanish(b, SCALE as int);
}

/// A quotient whose numerator magnitude is at most the positive divisor
/// lies within one.
pub proof fn lemma_fdiv_magnitude(n: int, d: int)
    requires
        d > 0,
        iabs(n) <= d,
    ensures
        -(FX_ONE as int) <= fdiv(n, d) <= FX_ONE as int,
{
    assert(iabs(n * 65536) == iabs(n) * 65536 && iabs(n) * 65536 <= d * 65536 && d * 65536 == 65536
        * d) by (nonlinear_arith)
        requires
            iabs(n) <= d,
    ;
    vstd::arithmetic::div_mod::lemma_div_pos_is_pos(iabs(n) * 65536, d);
    vstd::arithmetic::div_mod::lemma_div_is_ordered(iabs(n) * 65536, 65536 * d, d);
    vstd::arithmetic::div_mod::lemma_div_multiples_vanish(65536, d);
}

/// A square never rescales to a negative value.
pub proof fn lemma_fmul_square_nonneg(a: int)
    ensures
        fmul(a, a) >= 0,
{
    assert(a * a >= 0) by (nonlinear_arith);
}

/// Multiplying by one is the identity on representable scalars.
pub proof fn lemma_fmul_one(a: int)
    requires
        fx_ok(a),
    ensures
        fmul(FX_ONE as int, a) == a,
{
    if a >= 0 {
        vstd::arithmetic::div_mod::lemma_div_multiples_vanish(a, SCALE as int);
    } else {
        vstd::arithmetic::div_mod::lemma_div_multiples_vanish(-a, SCALE as int);
        assert((SCALE as int) * a == -((SCALE as int) * (-a))) by (nonlinear_arith);
    }
}

/// Multiplying by one on the right is the identity on representable
/// scalars.
pub proof fn lemma_fmul_one_right(a: int)
    requires
        fx_ok(a),
    ensures
        fmul(a, FX_ONE as int) == a,
{
    lemma_fmul_one(a);
}

/// Multiplying by minus one negates exactly on representable scalars.
pub proof fn lemma_fmul_neg_one(a: int)
    requires
        fx_ok(a),
    ensures
        fmul(-(FX_ONE as int), a) == fneg(a),
{
    vstd::arithmetic::div_mod::lemma_div_multiples_vanish(a, SCALE as int);
    vstd::arithmetic::div_mod::lemma_div_multiples_vanish(-a, SCALE as int);
    assert((-(FX_ONE as int)) * a == -((SCALE as int) * a)) by (nonlinear_arith);
    assert((SCALE as int) * (-a) == -((SCALE as int) * a)) by (nonlinear_arith);
}

/// One is its own fixed-point square root.
pub proof fn lemma_fsqrt_one()
    ensures
        fsqrt(FX_ONE as int) == FX_ONE as int,
{
    assert(is_sqrt_floor(4294967296nat, 65536nat)) by (nonlinear_arith);
    lemma_sqrt_floor_unique(4294967296nat, 65536nat);
}

/// The square root of a scalar no greater than one is no greater than one.
pub proof fn lemma_fsqrt_le_one(x: int)
    requires
        0 <= x <= FX_ONE,
    ensures
        0 <= fsqrt(x) <= FX_ONE,
{
    if x > 0 {
        let arg = (x * (SCALE as int)) as nat;
        lemma_sqrt_floor_correct(arg);
        let r = sqrt_floor(arg);
        assert(r >= 65537 ==> r * r >= 65537 * 65537) by (nonlinear_arith);
    }
}

/// Negating one factor negates the saturated product exactly.
pub proof fn lemma_fmul_neg_right(a: int, b: int)
    requires
        fx_ok(b),
    ensures
        fmul(a, fneg(b)) == fneg(fmul(a, b)),
{
    assert(a * (-b) == -(a * b)) by (nonlinear_arith);
}

/// Negating both addends negates the saturated sum exactly.
pub proof fn lemma_fadd_neg(a: int, b: int)
    requires
        fx_ok(a),
        fx_ok(b),
    ensures
        fadd(fneg(a), fneg(b)) == fneg(fadd(a, b)),
{
}

/// Whether `r` is the integer square root of `x`, rounded down.
pub open spec fn is_sqrt_floor(x: nat, r: nat) -> bool {
    r * r <= x < (r + 1) * (r + 1)
}

/// The integer square root, rounded down.
pub open spec fn sqrt_floor(x: nat) -> nat
    decreases x,
{
    if x == 0 {
        0
    } else {
        let r = sqrt_floor((x - 1) as nat);
        if (r + 1) * (r + 1) <= x {
            r + 1
        } else {
            r
        }
    }
}

pub proof fn lemma_sqrt_floor_correct(x: nat)
    ensures
        is_sqrt_floor(x, sqrt_floor(x)),
    decreases x,
{
    if x == 0 {
        assert(sqrt_floor(0nat) == 0);
        assert(0 * 0 <= 0 < (0 + 1) * (0 + 1)) by (nonlinear_arith);
    } else {
        let y = (x - 1) as nat;
        lemma_sqrt_floor_correct(y);
        let r = sqrt_floor(y);
        assert(r * r <= y && y < (r + 1) * (r + 1));
        if (r + 1) * (r + 1) <= x {
            assert(sqrt_floor(x) == r + 1);
            assert(x == (r + 1) * (r + 1));
            assert((r + 1) * (r + 1) < (r + 1 + 1) * (r + 1 + 1)) by (nonlinear_arith);
        } else {
            assert(sqrt_floor(x) == r);
            assert(r * r <= x < (r + 1) * (r + 1));
        }
    }
}

pub proof fn lemma_sqrt_floor_unique(x: nat, r: nat)
    requires
        is_sqrt_floor(x, r),
    ensures
        r == sqrt_floor(x),
{
    lemma_sqrt_floor_correct(x);
    let s = sqrt_floor(x);
    assert(r + 1 <= s ==> (r + 1) * (r + 1) <= s * s) by (nonlinear_arith);
    assert(s + 1 <= r ==> (s + 1) * (s + 1) <= r * r) by (nonlinear_arith);
}

/// Binary search for the integer square root.
fn isqrt_u128(x: u128) -> (r: u128)
    ensures
        r as nat == sqrt_floor(x as nat),
        r < 0x1_0000_0000_0000_0000,
{
    let mut lo: u128 = 0;
    let mut hi: u128 = 0x1_0000_0000_0000_0000;
    proof {
        assert((x as nat) < 0x1_0000_0000_0000_0000 * 0x1_0000_0000_0000_0000) by (nonlinear_arith)
            requires
                (x as nat) <= 0xffff_ffff_ffff_ffff_ffff_ffff_ffff_ffff,
        ;
    }
    while lo + 1 < hi
        invariant
            lo < hi,
            hi <= 0x1_0000_0000_0000_0000,
            (lo as nat) * (lo as nat) <= x as nat,
            (x as nat) < (hi as nat) * (hi as nat),
        decreases hi - lo,
    {
        let mid = lo + (hi - lo) / 2;
        proof {
            assert((mid as nat) < 0x1_0000_0000_0000_0000
                ==> (mid as nat) * (mid as nat)
                    <= 0xffff_ffff_ffff_ffff_ffff_ffff_ffff_ffff) by (nonlinear_arith);
        }
        if mid * mid <= x {
            lo = mid;
        } else {
            hi = mid;
        }
    }
    proof {
        lemma_sqrt_floor_unique(x as nat, lo as nat);
    }
    lo
}

/// The fixed-point square root: `fsqrt(a) / SCALE` is the square root of
/// `a / SCALE`, rounded down to the representation.
pub open spec fn fsqrt(a: int) -> int {
    if a <= 0 {
        0
    } else {
        sqrt_floor((a * (SCALE as int)) as nat) as int
    }
}

pub fn fx_sqrt(a: i64) -> (r: i64)
    ensures
        r as int == fsqrt(a as int),
        fx_ok(r as int),
        r >= 0,
{
    if a <= 0 {
        return 0;
    }
    proof {
        assert((a as nat) * 65536 < 0x1_0000_0000_0000_0000_0000) by (nonlinear_arith)
            requires
                a as nat <= 0x7fff_ffff_ffff_ffff,
        ;
    }
    let x: u128 = (a as u128) * (SCALE as u128);
    let r = isqrt_u128(x);
    proof {
        lemma_sqrt_floor_correct(x as nat);
        assert((r as nat) >= 0x100_0000_0000 ==> (r as nat) * (r as nat) >= 0x100_0000_0000
            * 0x100_0000_0000) by (nonlinear_arith);
        assert(0x100_0000_0000 * 0x100_0000_0000 == 0x1_0000_0000_0000_0000_0000int) by (nonlinear_arith);
    }
    r as i64
}

/// The integer square root never grows: it is monotone in its argument.
pub proof fn lemma_sqrt_floor_monotone(a: nat, b: nat)
    requires
        a <= b,
    ensures
        sqrt_floor(a) <= sqrt_floor(b),
{
    lemma_sqrt_floor_correct(a);
    lemma_sqrt_floor_correct(b);
    let ra = sqrt_floor(a);
    let rb = sqrt_floor(b);
    assert(rb + 1 <= ra ==> (rb + 1) * (rb + 1) <= ra * ra) by (nonlinear_arith);
}

/// A perfect square's integer square root is the magnitude of its root.
pub proof fn lemma_sqrt_floor_exact_square(c: int)
    ensures
        sqrt_floor((c * c) as nat) == iabs(c),
{
    assert(c * c == iabs(c) * iabs(c) && c * c >= 0) by (nonlinear_arith);
    assert(iabs(c) * iabs(c) < (iabs(c) + 1) * (iabs(c) + 1)) by (nonlinear_arith);
    lemma_sqrt_floor_unique((c * c) as nat, iabs(c) as nat);
}

/// The exact Euclidean length of three raw components: the square root of
/// the exact sum of squares, with no rescaling before the root, saturated.
/// This is the Q47.16 length of the vector the components stand for.
pub open spec fn flen3(x: int, y: int, z: int) -> int {
    clamp_fx(sqrt_floor((x * x + y * y + z * z) as nat) as int)
}

pub fn fx_len3(x: i64, y: i64, z: i64) -> (r: i64)
    ensures
        r as int == flen3(x as int, y as int, z as int),
        r >= 0,
        fx_ok(r as int),
{
    let mx: u128 = if x >= 0 {
        x as u128
    } else {
        (-(x as i128)) as u128
    };
    let my: u128 = if y >= 0 {
        y as u128
    } else {
        (-(y as i128)) as u128
    };
    let mz: u128 = if z >= 0 {
        z as u128
    } else {
        (-(z as i128)) as u128
    };
    proof {
        assert(iabs(x as int) * iabs(x as int) == (x as int) * (x as int)
            && (x as int) * (x as int) >= 0) by (nonlinear_arith);
        assert(iabs(y as int) * iabs(y as int) == (y as int) * (y as int)
            && (y as int) * (y as int) >= 0) by (nonlinear_arith);
        assert(iabs(z as int) * iabs(z as int) == (z as int) * (z as int)
            && (z as int) * (z as int) >= 0) by (nonlinear_arith);
        assert((mx as nat) <= 0x8000_0000_0000_0000 ==> (mx as nat) * (mx as nat)
            <= 0x4000_0000_0000_0000_0000_0000_0000_0000) by (nonlinear_arith);
        assert((my as nat) <= 0x8000_0000_0000_0000 ==> (my as nat) * (my as nat)
            <= 0x4000_0000_0000_0000_0000_0000_0000_0000) by (nonlinear_arith);
        assert((mz as nat) <= 0x8000_0000_0000_0000 ==> (mz as nat) * (mz as nat)
            <= 0x4000_0000_0000_0000_0000_0000_0000_0000) by (nonlinear_arith);
    }
    let s: u128 = mx * mx + my * my + mz * mz;
    let root = isqrt_u128(s);
    if root > FX_MAX as u128 {
        FX_MAX
    } else {
        root as i64
    }
}

} // verus!
