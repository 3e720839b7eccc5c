//! Fixed-point sine and cosine over angles measured in steps of a turn.
use vstd::prelude::*;

verus! {

/// Number of angle steps in a full turn.
pub const TURN: u64 = 256;

/// Number of angle steps in a quarter turn.
pub const QUARTER: u64 = 64;

/// Fixed-point scale of sine and cosine values: `SCALE` stands for 1.
pub const SCALE: i64 = 4096;

/// How far `sin² + cos²` of one tabulated angle may miss `SCALE²`.
pub const PYTHAGORAS_SLACK: i64 = 4608;

/// Sine of `k` steps for `k` in `0..=QUARTER`, rounded to the nearest multiple of `1 / SCALE`.
pub open spec fn quarter_sine(k: int) -> int {
    if k == 0 {
        0
    } else if k == 1 {
        101
    } else if k == 2 {
        201
    } else if k == 3 {
        301
    } else if k == 4 {
        401
    } else if k == 5 {
        501
    } else if k == 6 {
        601
    } else if k == 7 {
        700
    } else if k == 8 {
        799
    } else if k == 9 {
        897
    } else if k == 10 {
        995
    } else if k == 11 {
        1092
    } else if k == 12 {
        1189
    } else if k == 13 {
        1285
    } else if k == 14 {
        1380
    } else if k == 15 {
        1474
    } else if k == 16 {
        1567
    } else if k == 17 {
        1660
    } else if k == 18 {
        1751
    } else if k == 19 {
        1842
    } else if k == 20 {
        1931
    } else if k == 21 {
        2019
    } else if k == 22 {
        2106
    } else if k == 23 {
        2191
    } else if k == 24 {
        2276
    } else if k == 25 {
        2359
    } else if k == 26 {
        2440
    } else if k == 27 {
        2520
    } else if k == 28 {
        2598
    } else if k == 29 {
        2675
    } else if k == 30 {
        2751
    } else if k == 31 {
        2824
    } else if k == 32 {
        2896
    } else if k == 33 {
        2967
    } else if k == 34 {
        3035
    } else if k == 35 {
        3102
    } else if k == 36 {
        3166
    } else if k == 37 {
        3229
    } else if k == 38 {
        3290
    } else if k == 39 {
        3349
    } else if k == 40 {
        3406
    } else if k == 41 {
        3461
    } else if k == 42 {
        3513
    } else if k == 43 {
        3564
    } else if k == 44 {
        3612
    } else if k == 45 {
        3659
    } else if k == 46 {
        3703
    } else if k == 47 {
        3745
    } else if k == 48 {
        3784
    } else if k == 49 {
        3822
    } else if k == 50 {
        3857
    } else if k == 51 {
        3889
    } else if k == 52 {
        3920
    } else if k == 53 {
        3948
    } else if k == 54 {
        3973
    } else if k == 55 {
        3996
    } else if k == 56 {
        4017
    } else if k == 57 {
        4036
    } else if k == 58 {
        4052
    } else if k == 59 {
        4065
    } else if k == 60 {
        4076
    } else if k == 61 {
        4085
    } else if k == 62 {
        4091
    } else if k == 63 {
        4095
    } else {
        4096
    }
}

/// Sine of an angle of `a` steps, scaled by `SCALE`.
pub open spec fn sine(a: int) -> int {
    let b = a % (TURN as int);
    let q = b / (QUARTER as int);
    let r = b % (QUARTER as int);
    if q == 0 {
        quarter_sine(r)
    } else if q == 1 {
        quarter_sine(QUARTER - r)
    } else if q == 2 {
        -quarter_sine(r)
    } else {
        -quarter_sine(QUARTER - r)
    }
}

/// Cosine of an angle of `a` steps, scaled by `SCALE`: the sine a quarter turn ahead.
pub open spec fn cosine(a: int) -> int {
    sine(a + QUARTER)
}

fn quarter_sine_value(k: u64) -> (r: i64)
    requires
        k <= QUARTER,
    ensures
        r == quarter_sine(k as int),
{
    if k == 0 {
        0
    } else if k == 1 {
        101
    } else if k == 2 {
        201
    } else if k == 3 {
        301
    } else if k == 4 {
        401
    } else if k == 5 {
        501
    } else if k == 6 {
        601
    } else if k == 7 {
        700
    } else if k == 8 {
        799
    } else if k == 9 {
        897
    } else if k == 10 {
        995
    } else if k == 11 {
        1092
    } else if k == 12 {
        1189
    } else if k == 13 {
        1285
    } else if k == 14 {
        1380
    } else if k == 15 {
        1474
    } else if k == 16 {
        1567
    } else if k == 17 {
        1660
    } else if k == 18 {
        1751
    } else if k == 19 {
        1842
    } else if k == 20 {
        1931
    } else if k == 21 {
        2019
    } else if k == 22 {
        2106
    } else if k == 23 {
        2191
    } else if k == 24 {
        2276
    } else if k == 25 {
        2359
    } else if k == 26 {
        2440
    } else if k == 27 {
        2520
    } else if k == 28 {
        2598
    } else if k == 29 {
        2675
    } else if k == 30 {
        2751
    } else if k == 31 {
        2824
    } else if k == 32 {
        2896
    } else if k == 33 {
        2967
    } else if k == 34 {
        3035
    } else if k == 35 {
        3102
    } else if k == 36 {
        3166
    } else if k == 37 {
        3229
    } else if k == 38 {
        3290
    } else if k == 39 {
        3349
    } else if k == 40 {
        3406
    } else if k == 41 {
        3461
    } else if k == 42 {
        3513
    } else if k == 43 {
        3564
    } else if k == 44 {
        3612
    } else if k == 45 {
        3659
    } else if k == 46 {
        3703
    } else if k == 47 {
        3745
    } else if k == 48 {
        3784
    } else if k == 49 {
        3822
    } else if k == 50 {
        3857
    } else if k == 51 {
        3889
    } else if k == 52 {
        3920
    } else if k == 53 {
        3948
    } else if k == 54 {
        3973
    } else if k == 55 {
        3996
    } else if k == 56 {
        4017
    } else if k == 57 {
        4036
    } else if k == 58 {
        4052
    } else if k == 59 {
        4065
    } else if k == 60 {
        4076
    } else if k == 61 {
        4085
    } else if k == 62 {
        4091
    } else if k == 63 {
        4095
    } else {
        4096
    }
}

/// Sine of `a` steps, scaled by `SCALE`.
pub fn sin_steps(a: u64) -> (r: i64)
    ensures
        r == sine(a as int),
        -SCALE <= r <= SCALE,
{
    let b = a % TURN;
    let q = b / QUARTER;
    let r = b % QUARTER;
    proof {
        lemma_quarter_sine_range(r as int);
        lemma_quarter_sine_range(QUARTER - r);
    }
    if q == 0 {
        quarter_sine_value(r)
    } else if q == 1 {
        quarter_sine_value(QUARTER - r)
    } else if q == 2 {
        -quarter_sine_value(r)
    } else {
        -quarter_sine_value(QUARTER - r)
    }
}

/// Cosine of `a` steps, scaled by `SCALE`.
pub fn cos_steps(a: u64) -> (r: i64)
    ensures
        r == cosine(a as int),
        -SCALE <= r <= SCALE,
{
    let b = a % TURN + QUARTER;
    proof {
        vstd::arithmetic::div_mod::lemma_add_mod_noop(a as int, QUARTER as int, TURN as int);
        vstd::arithmetic::div_mod::lemma_mod_twice(a as int, TURN as int);
        vstd::arithmetic::div_mod::lemma_add_mod_noop(a as int % (TURN as int), QUARTER as int, TURN as int);
    }
    sin_steps(b)
}

/// Every tabulated value lies in `0..=SCALE`.
pub proof fn lemma_quarter_sine_range(k: int)
    requires
        0 <= k <= QUARTER,
    ensures
        0 <= quarter_sine(k) <= SCALE,
{
}

/// The tabulated sine and cosine of one angle in the first quadrant nearly satisfy `sin² + cos² = 1`.
pub proof fn lemma_quarter_pythagoras(k: int)
    requires
        0 <= k <= QUARTER,
    ensures
        SCALE * SCALE - PYTHAGORAS_SLACK <= quarter_sine(k) * quarter_sine(k) + quarter_sine(
            QUARTER - k,
        ) * quarter_sine(QUARTER - k) <= SCALE * SCALE + PYTHAGORAS_SLACK,
{
    if k == 0 {
    } else if k == 1 {
    } else if k == 2 {
    } else if k == 3 {
    } else if k == 4 {
    } else if k == 5 {
    } else if k == 6 {
    } else if k == 7 {
    } else if k == 8 {
    } else if k == 9 {
    } else if k == 10 {
    } else if k == 11 {
    } else if k == 12 {
    } else if k == 13 {
    } else if k == 14 {
    } else if k == 15 {
    } else if k == 16 {
    } else if k == 17 {
    } else if k == 18 {
    } else if k == 19 {
    } else if k == 20 {
    } else if k == 21 {
    } else if k == 22 {
    } else if k == 23 {
    } else if k == 24 {
    } else if k == 25 {
    } else if k == 26 {
    } else if k == 27 {
    } else if k == 28 {
    } else if k == 29 {
    } else if k == 30 {
    } else if k == 31 {
    } else if k == 32 {
    } else if k == 33 {
    } else if k == 34 {
    } else if k == 35 {
    } else if k == 36 {
    } else if k == 37 {
    } else if k == 38 {
    } else if k == 39 {
    } else if k == 40 {
    } else if k == 41 {
    } else if k == 42 {
    } else if k == 43 {
    } else if k == 44 {
    } else if k == 45 {
    } else if k == 46 {
    } else if k == 47 {
    } else if k == 48 {
    } else if k == 49 {
    } else if k == 50 {
    } else if k == 51 {
    } else if k == 52 {
    } else if k == 53 {
    } else if k == 54 {
    } else if k == 55 {
    } else if k == 56 {
    } else if k == 57 {
    } else if k == 58 {
    } else if k == 59 {
    } else if k == 60 {
    } else if k == 61 {
    } else if k == 62 {
    } else if k == 63 {
    } else if k == 64 {
    }
}

/// For every angle, the fixed-point sine and cosine nearly satisfy `sin² + cos² = 1`.
pub proof fn lemma_pythagoras(a: int)
    ensures
        SCALE * SCALE - PYTHAGORAS_SLACK <= sine(a) * sine(a) + cosine(a) * cosine(a) <= SCALE * SCALE
            + PYTHAGORAS_SLACK,
        -SCALE <= sine(a) <= SCALE,
        -SCALE <= cosine(a) <= SCALE,
{
    let b = a % (TURN as int);
    vstd::arithmetic::div_mod::lemma_add_mod_noop(a, QUARTER as int, TURN as int);
    vstd::arithmetic::div_mod::lemma_mod_bound(a, TURN as int);
    vstd::arithmetic::div_mod::lemma_mod_twice(a, TURN as int);
    let r = b % (QUARTER as int);
    let q = b / (QUARTER as int);
    let t0 = quarter_sine(r);
    let t1 = quarter_sine(QUARTER - r);
    lemma_quarter_pythagoras(r);
    lemma_quarter_sine_range(r);
    lemma_quarter_sine_range(QUARTER - r);
    let c = (b + QUARTER) % (TURN as int);
    assert(c == if b < 192 { b + QUARTER } else { b + QUARTER - TURN });
    assert(c % (QUARTER as int) == r);
    assert(cosine(a) == sine(c));
    assert((-t0) * (-t0) == t0 * t0) by (nonlinear_arith);
    assert((-t1) * (-t1) == t1 * t1) by (nonlinear_arith);
    if q == 0 {
        assert(sine(a) == t0 && cosine(a) == t1);
    } else if q == 1 {
        assert(sine(a) == t1 && cosine(a) == -t0);
    } else if q == 2 {
        assert(sine(a) == -t0 && cosine(a) == -t1);
    } else {
        assert(sine(a) == -t1 && cosine(a) == t0);
    }
}

/// Largest difference between the sines of two consecutive angles.
pub const SINE_STEP_MAX: i64 = 101;

/// Consecutive tabulated values rise by at most `SINE_STEP_MAX`.
pub proof fn lemma_quarter_step(k: int)
    requires
        0 <= k < QUARTER,
    ensures
        0 <= quarter_sine(k + 1) - quarter_sine(k) <= SINE_STEP_MAX,
{
    if k == 0 {
    } else if k == 1 {
    } else if k == 2 {
    } else if k == 3 {
    } else if k == 4 {
    } else if k == 5 {
    } else if k == 6 {
    } else if k == 7 {
    } else if k == 8 {
    } else if k == 9 {
    } else if k == 10 {
    } else if k == 11 {
    } else if k == 12 {
    } else if k == 13 {
    } else if k == 14 {
    } else if k == 15 {
    } else if k == 16 {
    } else if k == 17 {
    } else if k == 18 {
    } else if k == 19 {
    } else if k == 20 {
    } else if k == 21 {
    } else if k == 22 {
    } else if k == 23 {
    } else if k == 24 {
    } else if k == 25 {
    } else if k == 26 {
    } else if k == 27 {
    } else if k == 28 {
    } else if k == 29 {
    } else if k == 30 {
    } else if k == 31 {
    } else if k == 32 {
    } else if k == 33 {
    } else if k == 34 {
    } else if k == 35 {
    } else if k == 36 {
    } else if k == 37 {
    } else if k == 38 {
    } else if k == 39 {
    } else if k == 40 {
    } else if k == 41 {
    } else if k == 42 {
    } else if k == 43 {
    } else if k == 44 {
    } else if k == 45 {
    } else if k == 46 {
    } else if k == 47 {
    } else if k == 48 {
    } else if k == 49 {
    } else if k == 50 {
    } else if k == 51 {
    } else if k == 52 {
    } else if k == 53 {
    } else if k == 54 {
    } else if k == 55 {
    } else if k == 56 {
    } else if k == 57 {
    } else if k == 58 {
    } else if k == 59 {
    } else if k == 60 {
    } else if k == 61 {
    } else if k == 62 {
    } else if k == 63 {
    }
}

/// The sines of consecutive angles differ by at most `SINE_STEP_MAX`.
pub proof fn lemma_sine_step(a: int)
    ensures
        -SINE_STEP_MAX <= sine(a + 1) - sine(a) <= SINE_STEP_MAX,
{
    let b = a % (TURN as int);
    vstd::arithmetic::div_mod::lemma_mod_bound(a, TURN as int);
    vstd::arithmetic::div_mod::lemma_add_mod_noop(a, 1, TURN as int);
    vstd::arithmetic::div_mod::lemma_mod_twice(a, TURN as int);
    let c = (a + 1) % (TURN as int);
    assert(c == if b < 255 { b + 1 } else { 0 });
    let r = b % (QUARTER as int);
    if r < 63 {
        lemma_quarter_step(r);
        lemma_quarter_step(QUARTER - r - 1);
        assert(c % (QUARTER as int) == r + 1);
        assert(c / (QUARTER as int) == b / (QUARTER as int));
    } else {
        lemma_quarter_step(63);
        lemma_quarter_step(0);
    }
}

/// Sines of angles `d` steps apart differ by at most `SINE_STEP_MAX * d`.
pub proof fn lemma_sine_lipschitz(a: int, d: int)
    requires
        0 <= d,
    ensures
        -SINE_STEP_MAX * d <= sine(a + d) - sine(a) <= SINE_STEP_MAX * d,
    decreases d,
{
    if d > 0 {
        lemma_sine_lipschitz(a, d - 1);
        lemma_sine_step(a + d - 1);
    }
}

/// The sine depends on the angle modulo a turn.
pub proof fn lemma_sine_periodic(a: int, k: int)
    ensures
        sine(a + k * TURN) == sine(a),
{
    vstd::arithmetic::div_mod::lemma_mod_multiples_vanish(k, a, TURN as int);
    assert(k * TURN + a == a + k * TURN);
}

} // verus!
