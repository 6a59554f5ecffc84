//! Fixed-point sine and cosine.
//!
//! Angles are microradians. Half a turn is taken as the even integer [`PI`],
//! so that a quarter turn is an integer too. On `[0, PI]` the sine is the
//! rational approximation `16 x (PI - x) / (5 PI^2 - 4 x (PI - x))`, which is
//! exact at `0`, `PI / 6`, `PI / 2`, `5 PI / 6` and `PI` and within two
//! thousandths elsewhere; the other half wave is its mirror image.

use vstd::prelude::*;
use vstd::arithmetic::div_mod::lemma_fundamental_div_mod_converse;
use crate::units::UNIT;

verus! {

/// Half a turn.
pub const PI: i64 = 3_141_592;

/// A quarter turn.
pub const HALF_PI: i64 = 1_570_796;

/// A full turn.
pub const TAU: i64 = 6_283_184;

/// The angle in `[0, TAU)` that differs from `a` by whole turns.
pub open spec fn wrap_angle(a: int) -> int {
    a % (TAU as int)
}

/// The square of [`PI`].
pub const PI_SQUARED: i64 = 9_869_600_294_464;

/// The arch `x (PI - x)`, which vanishes at both ends of the half wave.
pub open spec fn arch(x: int) -> int {
    x * (PI - x)
}

/// The sine of `x` on the half wave `0 <= x <= PI`, scaled by [`UNIT`].
pub open spec fn half_wave(x: int) -> int {
    (16 * UNIT * arch(x)) / (5 * PI_SQUARED - 4 * arch(x))
}

/// The sine of any angle, scaled by [`UNIT`].
pub open spec fn sine(a: int) -> int {
    let w = wrap_angle(a);
    if w <= PI {
        half_wave(w)
    } else {
        -half_wave(w - PI)
    }
}

/// The cosine of any angle, scaled by [`UNIT`]: the sine a quarter turn on.
pub open spec fn cosine(a: int) -> int {
    sine(a + HALF_PI)
}

/// On the half wave the arch lies between zero and a quarter of
/// [`PI_SQUARED`].
pub proof fn lemma_arch_bounds(x: int)
    requires
        0 <= x <= PI,
    ensures
        0 <= arch(x) <= 2_467_400_073_616,
        4 * 2_467_400_073_616 == PI_SQUARED,
{
    assert(0 <= x * (3_141_592 - x) <= 2_467_400_073_616) by (nonlinear_arith)
        requires
            0 <= x <= 3_141_592,
    ;
}

/// Between `a` and its mirror image `PI - a` the arch is at least what it is
/// at `a`.
pub proof fn lemma_arch_grows_inward(a: int, x: int)
    requires
        0 <= a <= x <= PI - a,
    ensures
        arch(a) <= arch(x),
{
    assert(a * (3_141_592 - a) <= x * (3_141_592 - x)) by (nonlinear_arith)
        requires
            0 <= a <= x <= 3_141_592 - a,
    ;
}

/// The sine of the half wave with its constants written out.
proof fn lemma_half_wave_unfold(x: int)
    ensures
        half_wave(x) == (16_000_000 * arch(x)) / (49_348_001_472_320 - 4 * arch(x)),
{
    let p = arch(x);
    assert(16 * UNIT * p == 16_000_000 * p) by (nonlinear_arith)
        requires
            UNIT == 1_000_000,
    ;
}

proof fn lemma_quotient_bounds(num: int, den: int, lo: int, hi: int)
    by (nonlinear_arith)
    requires
        den > 0,
        lo * den <= num,
        num <= hi * den,
    ensures
        lo <= num / den <= hi,
{
}

/// The sine of the half wave lies between zero and one whole.
pub proof fn lemma_half_wave_bounds(x: int)
    requires
        0 <= x <= PI,
    ensures
        0 <= half_wave(x) <= UNIT,
{
    lemma_arch_bounds(x);
    lemma_half_wave_unfold(x);
    lemma_quotient_bounds(16_000_000 * arch(x), 49_348_001_472_320 - 4 * arch(x), 0, 1_000_000);
}

/// Between `a` and its mirror image `PI - a` the sine is at least what it
/// is at `a`: the half wave rises towards the quarter turn from both ends.
pub proof fn lemma_half_wave_grows_inward(a: int, x: int)
    requires
        0 <= a <= x <= PI - a,
    ensures
        half_wave(a) <= half_wave(x),
{
    lemma_arch_bounds(x);
    lemma_arch_bounds(a);
    lemma_arch_grows_inward(a, x);
    lemma_half_wave_unfold(x);
    lemma_half_wave_unfold(a);
    lemma_half_wave_bounds(a);
    let p = arch(x);
    let pa = arch(a);
    let k: int = 49_348_001_472_320;
    let floor = half_wave(a);
    assert(floor * (k - 4 * pa) <= 16_000_000 * pa) by {
        vstd::arithmetic::div_mod::lemma_fundamental_div_mod(16_000_000 * pa, k - 4 * pa);
        assert((k - 4 * pa) * floor == floor * (k - 4 * pa)) by (nonlinear_arith);
    }
    assert(floor * (k - 4 * p) <= floor * (k - 4 * pa)) by (nonlinear_arith)
        requires
            0 <= floor,
            pa <= p,
    ;
    lemma_quotient_bounds(16_000_000 * p, k - 4 * p, floor, 1_000_000);
}

/// The sine of the half wave is its own mirror image about the quarter
/// turn.
pub proof fn lemma_half_wave_mirror(x: int)
    ensures
        half_wave(PI - x) == half_wave(x),
{
    assert(arch(PI - x) == arch(x)) by (nonlinear_arith)
        requires
            arch(PI - x) == (3_141_592 - x) * (3_141_592 - (3_141_592 - x)),
            arch(x) == x * (3_141_592 - x),
    ;
}

/// What the approximation gives at a hundredth of a radian, at an eighth of
/// a turn and at a twelfth of a turn.
pub proof fn lemma_half_wave_samples()
    ensures
        half_wave(10_000) == 10_179,
        half_wave(785_398) == 705_882,
        half_wave(523_599) == 500_000,
{
    lemma_half_wave_unfold(10_000);
    lemma_half_wave_unfold(785_398);
    lemma_half_wave_unfold(523_599);
    assert(arch(10_000) == 31_315_920_000) by (nonlinear_arith)
        requires
            arch(10_000) == 10_000 * (3_141_592 - 10_000),
    ;
    assert(arch(785_398) == 1_850_550_055_212) by (nonlinear_arith)
        requires
            arch(785_398) == 785_398 * (3_141_592 - 785_398),
    ;
    assert(arch(523_599) == 1_370_778_516_807) by (nonlinear_arith)
        requires
            arch(523_599) == 523_599 * (3_141_592 - 523_599),
    ;
    lemma_exact_quotient(
        16_000_000 * arch(10_000),
        49_348_001_472_320 - 4 * arch(10_000),
        10_179,
    );
    lemma_exact_quotient(
        16_000_000 * arch(785_398),
        49_348_001_472_320 - 4 * arch(785_398),
        705_882,
    );
    lemma_exact_quotient(
        16_000_000 * arch(523_599),
        49_348_001_472_320 - 4 * arch(523_599),
        500_000,
    );
}

proof fn lemma_exact_quotient(num: int, den: int, q: int)
    by (nonlinear_arith)
    requires
        den > 0,
        q * den <= num < (q + 1) * den,
    ensures
        num / den == q,
{
}

/// The sine and cosine of every angle lie between minus one and one whole.
pub proof fn lemma_sine_bounds(a: int)
    ensures
        -UNIT <= sine(a) <= UNIT,
        -UNIT <= cosine(a) <= UNIT,
{
    let w = wrap_angle(a);
    if w <= PI {
        lemma_half_wave_bounds(w);
    } else {
        lemma_half_wave_bounds(w - PI);
    }
    let v = wrap_angle(a + HALF_PI);
    if v <= PI {
        lemma_half_wave_bounds(v);
    } else {
        lemma_half_wave_bounds(v - PI);
    }
}

/// The approximation is exact at the quarter turns.
pub proof fn lemma_sine_at_quarter_turns()
    ensures
        sine(0) == 0,
        sine(HALF_PI as int) == UNIT,
        sine(PI as int) == 0,
        sine(PI + HALF_PI) == -UNIT,
        cosine(0) == UNIT,
        cosine(HALF_PI as int) == 0,
        cosine(PI as int) == -UNIT,
        cosine(PI + HALF_PI) == 0,
{
    assert(arch(0) == 0);
    assert(arch(PI as int) == 0);
    assert(arch(HALF_PI as int) == 2_467_400_073_616) by (nonlinear_arith)
        requires
            arch(HALF_PI as int) == 1_570_796 * (3_141_592 - 1_570_796),
    ;
    lemma_half_wave_unfold(0);
    lemma_half_wave_unfold(PI as int);
    lemma_half_wave_unfold(HALF_PI as int);
    lemma_quotient_bounds(
        16_000_000int * 2_467_400_073_616,
        49_348_001_472_320int - 4 * 2_467_400_073_616,
        1_000_000,
        1_000_000,
    );
}

/// Half a turn on, sine and cosine change their sign; a full turn on, they
/// are what they were.
pub proof fn lemma_sine_turns(a: int)
    ensures
        sine(a + PI) == -sine(a),
        cosine(a + PI) == -cosine(a),
        sine(a + TAU) == sine(a),
        cosine(a + TAU) == cosine(a),
        sine(a + HALF_PI) == cosine(a),
        cosine(a + HALF_PI) == -sine(a),
{
    lemma_half_turn(a);
    lemma_half_turn(a + HALF_PI);
    lemma_half_turn(a + PI);
    lemma_half_turn(a + PI + HALF_PI);
    assert(a + PI + PI == a + TAU);
    assert(a + HALF_PI + HALF_PI == a + PI);
}

proof fn lemma_half_turn(a: int)
    ensures
        sine(a + PI) == -sine(a),
{
    let w = wrap_angle(a);
    let v = wrap_angle(a + PI);
    assert(v == (w + PI) % (TAU as int)) by {
        vstd::arithmetic::div_mod::lemma_add_mod_noop(a, PI as int, TAU as int);
        vstd::arithmetic::div_mod::lemma_add_mod_noop(w, PI as int, TAU as int);
        vstd::arithmetic::div_mod::lemma_mod_twice(a, TAU as int);
    }
    lemma_half_wave_unfold(0);
    lemma_half_wave_unfold(PI as int);
    assert(arch(0) == 0 && arch(PI as int) == 0);
    if w < PI {
        assert(v == w + PI);
    } else {
        assert(v == w - PI);
    }
}

/// The sine is odd and the cosine is even.
pub proof fn lemma_sine_is_odd(a: int)
    ensures
        sine(-a) == -sine(a),
        cosine(-a) == cosine(a),
{
    lemma_negated(a);
    lemma_negated(a - HALF_PI);
    lemma_half_turn(a - HALF_PI);
    assert(a - HALF_PI + PI == a + HALF_PI);
    assert(-(a - HALF_PI) == -a + HALF_PI);
}

proof fn lemma_negated(a: int)
    ensures
        sine(-a) == -sine(a),
{
    let w = wrap_angle(a);
    let v = wrap_angle(-a);
    let k = a / (TAU as int);
    vstd::arithmetic::div_mod::lemma_fundamental_div_mod(a, TAU as int);
    assert(a == TAU * k + w);
    lemma_half_wave_unfold(0);
    lemma_half_wave_unfold(PI as int);
    assert(arch(0) == 0 && arch(PI as int) == 0);
    if w == 0 {
        assert(-a == (-k) * TAU + 0) by (nonlinear_arith)
            requires
                a == TAU * k + 0,
        ;
        lemma_fundamental_div_mod_converse(-a, TAU as int, -k, 0);
    } else {
        assert(-a == (-k - 1) * TAU + (TAU - w)) by (nonlinear_arith)
            requires
                a == TAU * k + w,
        ;
        lemma_fundamental_div_mod_converse(-a, TAU as int, -k - 1, TAU - w);
        assert(v == TAU - w);
        if w <= PI {
            lemma_half_wave_mirror(w);
        } else {
            lemma_half_wave_mirror(w - PI);
            assert(PI - (w - PI) == TAU - w);
        }
    }
}

/// Of the sine and cosine of any angle, one is at least seven tenths in
/// magnitude: the horizontal heading never vanishes.
pub proof fn lemma_heading_never_vanishes(a: int)
    ensures
        sine(a) >= 700_000 || sine(a) <= -700_000 || cosine(a) >= 700_000 || cosine(a)
            <= -700_000,
{
    let w = wrap_angle(a);
    let v = wrap_angle(a + HALF_PI);
    let q: int = 785_398;
    lemma_half_wave_samples();
    if q <= w <= PI - q {
        lemma_half_wave_grows_inward(q, w);
    } else if PI + q <= w <= TAU - q {
        lemma_half_wave_grows_inward(q, w - PI);
    } else {
        // the angle a quarter turn on lies in one of the two bands above
        assert(v == (w + HALF_PI) % (TAU as int)) by {
            vstd::arithmetic::div_mod::lemma_add_mod_noop(a, HALF_PI as int, TAU as int);
            vstd::arithmetic::div_mod::lemma_add_mod_noop(w, HALF_PI as int, TAU as int);
            vstd::arithmetic::div_mod::lemma_mod_twice(a, TAU as int);
        }
        if w + HALF_PI < TAU {
            assert(v == w + HALF_PI);
        } else {
            assert(v == w + HALF_PI - TAU);
        }
        if q <= v <= PI - q {
            lemma_half_wave_grows_inward(q, v);
        } else {
            assert(PI + q <= v <= TAU - q);
            lemma_half_wave_grows_inward(q, v - PI);
        }
    }
}

fn half_wave_of(x: i64) -> (r: i64)
    requires
        0 <= x <= PI,
    ensures
        r == half_wave(x as int),
{
    proof {
        lemma_arch_bounds(x as int);
        lemma_half_wave_bounds(x as int);
        lemma_half_wave_unfold(x as int);
        assert((x as u64) * ((PI - x) as u64) == arch(x as int));
    }
    let p: u64 = (x as u64) * ((PI - x) as u64);
    assert(p <= 2_467_400_073_616);
    let num: u128 = 16_000_000 * (p as u128);
    let den: u128 = 49_348_001_472_320 - 4 * (p as u128);
    (num / den) as i64
}

/// Reduces any angle to `[0, TAU)`.
pub fn wrap(angle: i64) -> (w: i64)
    ensures
        w == wrap_angle(angle as int),
        0 <= w < TAU,
{
    wrap_wide(angle as i128)
}

/// Reduces a sum of angles to `[0, TAU)`.
pub fn wrap_wide(angle: i128) -> (w: i64)
    ensures
        w == wrap_angle(angle as int),
        0 <= w < TAU,
{
    if angle >= 0 {
        ((angle as u128) % (TAU as u128)) as i64
    } else {
        // a turn on, the least angle has a negative that the machine can hold
        let a: i128 = if angle == i128::MIN {
            angle + (TAU as i128)
        } else {
            angle
        };
        let m: u128 = ((-a) as u128) % (TAU as u128);
        let w: i64 = if m == 0 {
            0
        } else {
            TAU - (m as i64)
        };
        proof {
            vstd::arithmetic::div_mod::lemma_mod_add_multiples_vanish(angle as int, TAU as int);
            assert(wrap_angle(a as int) == wrap_angle(angle as int));
            let n = -(a as int);
            let k = n / (TAU as int);
            assert(n == k * TAU + m) by {
                vstd::arithmetic::div_mod::lemma_fundamental_div_mod(n, TAU as int);
            }
            if m == 0 {
                assert(a as int == (-k) * TAU + 0) by (nonlinear_arith)
                    requires
                        -(a as int) == k * TAU + 0,
                ;
                lemma_fundamental_div_mod_converse(a as int, TAU as int, -k, 0);
            } else {
                assert(a as int == (-k - 1) * TAU + (TAU - m)) by (nonlinear_arith)
                    requires
                        -(a as int) == k * TAU + m,
                ;
                lemma_fundamental_div_mod_converse(a as int, TAU as int, -k - 1, TAU - m);
            }
        }
        w
    }
}

/// The sine of `angle`, scaled by [`UNIT`].
pub fn sin(angle: i64) -> (s: i64)
    ensures
        s == sine(angle as int),
        -UNIT <= s <= UNIT,
{
    proof {
        lemma_sine_bounds(angle as int);
    }
    let w = wrap(angle);
    if w <= PI {
        half_wave_of(w)
    } else {
        proof {
            lemma_half_wave_bounds(w - PI);
        }
        -half_wave_of(w - PI)
    }
}

/// The cosine of `angle`, scaled by [`UNIT`].
pub fn cos(angle: i64) -> (c: i64)
    ensures
        c == cosine(angle as int),
        -UNIT <= c <= UNIT,
{
    let w = wrap(angle);
    proof {
        lemma_sine_bounds(angle as int);
        vstd::arithmetic::div_mod::lemma_add_mod_noop(angle as int, HALF_PI as int, TAU as int);
        vstd::arithmetic::div_mod::lemma_add_mod_noop(w as int, HALF_PI as int, TAU as int);
        vstd::arithmetic::div_mod::lemma_mod_twice(angle as int, TAU as int);
        assert(wrap_angle(angle + HALF_PI) == wrap_angle(w + HALF_PI));
    }
    sin(w + HALF_PI)
}

} // verus!
