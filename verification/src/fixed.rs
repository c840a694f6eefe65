//! Saturating Q31.32 fixed-point arithmetic.
//!
//! A value is stored as `bits`, an `i64`, and denotes the real number
//! `bits / 2^32`.  Every operation clamps its mathematical result into the
//! `i64` range instead of overflowing, and division by zero saturates to the
//! nearest extreme (a stand-in for an infinity), so all operations are total.
//! Each executable operation carries an `ensures` that gives its result
//! exactly, as an integer function of the operand bits.

use vstd::prelude::*;

verus! {

/// Number of integer units per 1.0: 2^32.
pub const FX_ONE: i64 = 4294967296;

/// 2.0 in Q31.32.
pub const FX_TWO: i64 = 8589934592;

/// 6.0 in Q31.32.
pub const FX_SIX: i64 = 25769803776;

/// 100.0 in Q31.32.
pub const FX_HUNDRED: i64 = 429496729600;

/// The closest Q31.32 value to the circle constant pi.
pub const FX_PI: i64 = 13493037705;

/// Twice `FX_PI`: one full turn.
pub const FX_TWO_PI: i64 = 26986075410;

/// The closest Q31.32 value to pi / 2.
pub const FX_HALF_PI: i64 = 6746518852;

/// 120.0 (5 factorial) in Q31.32.
pub const FX_F5: i64 = 515396075520;

/// 5040.0 (7 factorial) in Q31.32.
pub const FX_F7: i64 = 21646635171840;

/// 362880.0 (9 factorial) in Q31.32.
pub const FX_F9: i64 = 1558557732372480;

/// 39916800.0 (11 factorial) in Q31.32.
pub const FX_F11: i64 = 171441350560972800;

/// The least multiple of `FX_TWO_PI` that is at least 2^63; adding it moves
/// any `i64` bit pattern into the non-negative range without changing its
/// residue modulo a full turn.  Equal to `341782638 * FX_TWO_PI`.
pub const REDUCE_OFFSET: u64 = 9223372042896731580;

/// Clamp an unbounded integer into the `i64` range.
pub open spec fn clamp64(x: int) -> int {
    if x > i64::MAX as int {
        i64::MAX as int
    } else if x < i64::MIN as int {
        i64::MIN as int
    } else {
        x
    }
}

/// Magnitude of an integer.
pub open spec fn fx_mag(x: int) -> int {
    if x < 0 {
        -x
    } else {
        x
    }
}

/// Exact value of saturating fixed-point addition, on raw bits.
pub open spec fn spec_add(a: int, b: int) -> int {
    clamp64(a + b)
}

/// Exact value of saturating fixed-point subtraction, on raw bits.
pub open spec fn spec_sub(a: int, b: int) -> int {
    clamp64(a - b)
}

/// Exact value of saturating fixed-point negation, on raw bits.
pub open spec fn spec_neg(a: int) -> int {
    clamp64(-a)
}

/// Exact value of saturating fixed-point multiplication, on raw bits:
/// the product of the magnitudes is rescaled by 2^32 (truncated toward
/// zero), given the sign of the real product, and clamped.
pub open spec fn spec_mul(a: int, b: int) -> int {
    let m = (fx_mag(a) * fx_mag(b)) / (FX_ONE as int);
    if (a < 0) == (b < 0) {
        clamp64(m)
    } else {
        clamp64(-m)
    }
}

/// Exact value of saturating fixed-point division, on raw bits: truncated
/// toward zero and clamped; a zero divisor saturates to the signed extreme
/// (zero for a zero dividend).
pub open spec fn spec_div(a: int, b: int) -> int {
    if b == 0 {
        if a == 0 {
            0
        } else if a > 0 {
            i64::MAX as int
        } else {
            i64::MIN as int
        }
    } else {
        let m = (fx_mag(a) * (FX_ONE as int)) / fx_mag(b);
        if (a < 0) == (b < 0) {
            clamp64(m)
        } else {
            clamp64(-m)
        }
    }
}

/// A saturating Q31.32 fixed-point number; `bits` denotes `bits / 2^32`.
#[derive(Clone, Copy, PartialEq, Eq, Structural, Debug)]
pub struct Fx {
    pub bits: i64,
}

impl Fx {
    /// Wrap raw Q31.32 bits.
    pub fn from_bits(bits: i64) -> (r: Fx)
        ensures
            r.bits == bits,
    {
        Fx { bits }
    }

    /// The fixed-point value of a small integer.
    pub fn from_int(v: i32) -> (r: Fx)
        ensures
            r.bits as int == v as int * FX_ONE as int,
    {
        Fx { bits: (v as i64) * FX_ONE }
    }
}

/// Clamp an `i128` into the `i64` range.
fn clamp_i128(x: i128) -> (r: i64)
    ensures
        r as int == clamp64(x as int),
{
    if x > i64::MAX as i128 {
        i64::MAX
    } else if x < i64::MIN as i128 {
        i64::MIN
    } else {
        x as i64
    }
}

/// Magnitude of an `i64`, as a `u128`.
fn mag_u128(x: i64) -> (r: u128)
    ensures
        r as int == fx_mag(x as int),
{
    if x >= 0 {
        x as u128
    } else {
        (-(x as i128)) as u128
    }
}

/// Saturating fixed-point addition.
pub fn fx_add(a: Fx, b: Fx) -> (r: Fx)
    ensures
        r.bits as int == spec_add(a.bits as int, b.bits as int),
{
    Fx { bits: clamp_i128(a.bits as i128 + b.bits as i128) }
}

/// Saturating fixed-point subtraction.
pub fn fx_sub(a: Fx, b: Fx) -> (r: Fx)
    ensures
        r.bits as int == spec_sub(a.bits as int, b.bits as int),
{
    Fx { bits: clamp_i128(a.bits as i128 - b.bits as i128) }
}

/// Saturating fixed-point negation.
pub fn fx_neg(a: Fx) -> (r: Fx)
    ensures
        r.bits as int == spec_neg(a.bits as int),
{
    if a.bits == i64::MIN {
        Fx { bits: i64::MAX }
    } else {
        Fx { bits: -a.bits }
    }
}

/// Saturating fixed-point multiplication.
pub fn fx_mul(a: Fx, b: Fx) -> (r: Fx)
    ensures
        r.bits as int == spec_mul(a.bits as int, b.bits as int),
{
    let ma: u128 = mag_u128(a.bits);
    let mb: u128 = mag_u128(b.bits);
    proof {
        assert(ma <= 0x8000000000000000 && mb <= 0x8000000000000000 ==> ma * mb
            <= 0x8000000000000000 * 0x8000000000000000) by (nonlinear_arith);
    }
    let p: u128 = ma * mb;
    let q: u128 = p / (FX_ONE as u128);
    if (a.bits < 0) != (b.bits < 0) {
        if q >= 9223372036854775808u128 {
            Fx { bits: i64::MIN }
        } else {
            Fx { bits: -(q as i64) }
        }
    } else {
        if q > i64::MAX as u128 {
            Fx { bits: i64::MAX }
        } else {
            Fx { bits: q as i64 }
        }
    }
}

/// Saturating fixed-point division; a zero divisor saturates to the signed
/// extreme.
pub fn fx_div(a: Fx, b: Fx) -> (r: Fx)
    ensures
        r.bits as int == spec_div(a.bits as int, b.bits as int),
{
    if b.bits == 0 {
        if a.bits == 0 {
            Fx { bits: 0 }
        } else if a.bits > 0 {
            Fx { bits: i64::MAX }
        } else {
            Fx { bits: i64::MIN }
        }
    } else {
        let ma: u128 = mag_u128(a.bits);
        let mb: u128 = mag_u128(b.bits);
        proof {
            assert(ma <= 0x8000000000000000 ==> ma * (FX_ONE as u128)
                <= 0x8000000000000000 * (FX_ONE as u128)) by (nonlinear_arith);
        }
        let n: u128 = ma * (FX_ONE as u128);
        let q: u128 = n / mb;
        if (a.bits < 0) != (b.bits < 0) {
            if q >= 9223372036854775808u128 {
                Fx { bits: i64::MIN }
            } else {
                Fx { bits: -(q as i64) }
            }
        } else {
            if q > i64::MAX as u128 {
                Fx { bits: i64::MAX }
            } else {
                Fx { bits: q as i64 }
            }
        }
    }
}

/// Residue of an angle in (-pi, pi]: the Euclidean remainder modulo a full
/// turn, shifted down by a turn when it lands above `FX_PI`.
pub open spec fn spec_reduce(x: int) -> int {
    let rem = x % (FX_TWO_PI as int);
    if rem > FX_PI as int {
        rem - FX_TWO_PI as int
    } else {
        rem
    }
}

/// Fold a reduced angle into [-pi/2, pi/2] using the symmetries of the sine:
/// sin(r) = sin(pi - r) = sin(-pi - r).
pub open spec fn spec_fold(r: int) -> int {
    if r > FX_HALF_PI as int {
        FX_PI as int - r
    } else if r < -(FX_HALF_PI as int) {
        -(FX_PI as int) - r
    } else {
        r
    }
}

/// Degree-11 Taylor polynomial of the sine, evaluated with the saturating
/// fixed-point operations: t - t^3/3! + t^5/5! - t^7/7! + t^9/9! - t^11/11!.
pub open spec fn spec_sin_poly(t: int) -> int {
    let t2 = spec_mul(t, t);
    let t3 = spec_mul(t2, t);
    let t5 = spec_mul(t3, t2);
    let t7 = spec_mul(t5, t2);
    let t9 = spec_mul(t7, t2);
    let t11 = spec_mul(t9, t2);
    let s1 = spec_sub(t, spec_div(t3, FX_SIX as int));
    let s2 = spec_add(s1, spec_div(t5, FX_F5 as int));
    let s3 = spec_sub(s2, spec_div(t7, FX_F7 as int));
    let s4 = spec_add(s3, spec_div(t9, FX_F9 as int));
    spec_sub(s4, spec_div(t11, FX_F11 as int))
}

/// Exact value of the fixed-point sine, on raw bits: reduce, fold, then the
/// Taylor polynomial.
pub open spec fn spec_sin(x: int) -> int {
    spec_sin_poly(spec_fold(spec_reduce(x)))
}

/// Exact value of the fixed-point cosine: the sine shifted by a quarter turn.
pub open spec fn spec_cos(x: int) -> int {
    spec_sin(spec_add(x, FX_HALF_PI as int))
}

/// Reduce raw angle bits to their residue in (-pi, pi].
fn reduce(x: i64) -> (r: i64)
    ensures
        r as int == spec_reduce(x as int),
        -(FX_PI as int) < r as int <= FX_PI as int,
{
    let y: u128 = ((x as i128) + (REDUCE_OFFSET as i128)) as u128;
    let rem_u: u128 = y % (FX_TWO_PI as u128);
    let rem: i64 = rem_u as i64;
    proof {
        vstd::arithmetic::div_mod::lemma_mod_multiples_vanish(
            341782638int,
            x as int,
            FX_TWO_PI as int,
        );
        assert(y as int == (FX_TWO_PI as int) * 341782638int + x as int);
        assert(rem as int == (x as int) % (FX_TWO_PI as int));
    }
    if rem > FX_PI {
        rem - FX_TWO_PI
    } else {
        rem
    }
}

/// Fold a reduced angle into [-pi/2, pi/2].
fn fold(r: i64) -> (t: i64)
    requires
        -(FX_PI as int) <= r as int <= FX_PI as int,
    ensures
        t as int == spec_fold(r as int),
{
    if r > FX_HALF_PI {
        FX_PI - r
    } else if r < -FX_HALF_PI {
        -FX_PI - r
    } else {
        r
    }
}

/// Evaluate the degree-11 Taylor polynomial of the sine.
fn sin_poly(t: Fx) -> (r: Fx)
    ensures
        r.bits as int == spec_sin_poly(t.bits as int),
{
    let t2 = fx_mul(t, t);
    let t3 = fx_mul(t2, t);
    let t5 = fx_mul(t3, t2);
    let t7 = fx_mul(t5, t2);
    let t9 = fx_mul(t7, t2);
    let t11 = fx_mul(t9, t2);
    let s1 = fx_sub(t, fx_div(t3, Fx { bits: FX_SIX }));
    let s2 = fx_add(s1, fx_div(t5, Fx { bits: FX_F5 }));
    let s3 = fx_sub(s2, fx_div(t7, Fx { bits: FX_F7 }));
    let s4 = fx_add(s3, fx_div(t9, Fx { bits: FX_F9 }));
    fx_sub(s4, fx_div(t11, Fx { bits: FX_F11 }))
}

/// Fixed-point sine of an angle in radians.
pub fn fx_sin(x: Fx) -> (r: Fx)
    ensures
        r.bits as int == spec_sin(x.bits as int),
{
    let red: i64 = reduce(x.bits);
    let t: i64 = fold(red);
    sin_poly(Fx { bits: t })
}

/// Fixed-point cosine of an angle in radians.
pub fn fx_cos(x: Fx) -> (r: Fx)
    ensures
        r.bits as int == spec_cos(x.bits as int),
{
    fx_sin(fx_add(x, Fx { bits: FX_HALF_PI }))
}

} // verus!
