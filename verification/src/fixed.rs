//! Fixed-point amplitude scale and the per-waveform value functions.
//!
//! A waveform value is an integer in `[-AMP_ONE, AMP_ONE]`, standing for a
//! real amplitude in `[-1.0, 1.0]`. A phase is an integer in
//! `[0, PHASE_ONE)`, standing for a position inside one waveform cycle.
//! The sine shape is the classical quadratic rational approximation of
//! Bhaskara I, exact in integer arithmetic and within 0.2% of the real sine;
//! the other shapes (saw, triangle, square, pulse) are piecewise linear and
//! are represented exactly.

use vstd::arithmetic::div_mod::{
    lemma_div_is_ordered, lemma_div_multiples_vanish, lemma_div_nonincreasing,
    lemma_div_pos_is_pos,
};
use vstd::prelude::*;

use crate::wavetype::WaveType;

verus! {

/// Fixed-point representation of an amplitude of 1.0.
pub const AMP_ONE: u64 = 1_000_000;

/// Amplitudes at or below this threshold (0.0001) are clamped to exactly zero,
/// which is the signal that lets the voice pool retire a released voice.
pub const AMP_EPSILON: u64 = 100;

/// One full waveform cycle of phase: phase values live in `[0, PHASE_ONE)`.
pub const PHASE_ONE: u64 = 0x1_0000_0000;

/// Half of a waveform cycle.
pub const HALF_PHASE: u64 = 0x8000_0000;

/// Bhaskara's quadratic rational sine approximation on the first half cycle:
/// for `u` in `[0, HALF_PHASE]` this is `sin(pi * u / HALF_PHASE)` scaled by
/// `AMP_ONE`, always in `[0, AMP_ONE]`.
pub open spec fn half_sine_fx(u: int) -> int {
    let h = HALF_PHASE as int;
    let a = u * (h - u);
    (16 * a * (AMP_ONE as int)) / (5 * (h * h) - 4 * a)
}

/// The sine waveform value at `phase`, scaled by `AMP_ONE`: the second half
/// cycle is the negated mirror of the first.
pub open spec fn sine_fx(phase: int) -> int {
    if phase <= HALF_PHASE as int {
        half_sine_fx(phase)
    } else {
        -half_sine_fx(phase - HALF_PHASE as int)
    }
}

/// The sawtooth value at `phase`: a linear ramp from -1.0 up to +1.0 over one
/// cycle.
pub open spec fn saw_fx(phase: int) -> int {
    (2 * (AMP_ONE as int) * phase) / (PHASE_ONE as int) - AMP_ONE as int
}

/// The triangle value at `phase`: up from 0 to +1.0 over the first quarter
/// cycle, down to -1.0 over the middle half, back up to 0 over the last
/// quarter.
pub open spec fn triangle_fx(phase: int) -> int {
    let ramp = (4 * (AMP_ONE as int) * phase) / (PHASE_ONE as int);
    if 4 * phase <= PHASE_ONE as int {
        ramp
    } else if 4 * phase <= 3 * PHASE_ONE as int {
        2 * (AMP_ONE as int) - ramp
    } else {
        ramp - 4 * (AMP_ONE as int)
    }
}

/// The square value at `phase`: +1.0 where the sine is negative (strictly
/// above the half cycle) and -1.0 elsewhere.
pub open spec fn square_fx(phase: int) -> int {
    if phase > HALF_PHASE as int {
        AMP_ONE as int
    } else {
        -(AMP_ONE as int)
    }
}

/// The pulse value at `phase`: +1.0 during the first fifth of the cycle (a
/// 20% duty cycle) and -1.0 for the rest.
pub open spec fn pulse_fx(phase: int) -> int {
    if 5 * phase < PHASE_ONE as int {
        AMP_ONE as int
    } else {
        -(AMP_ONE as int)
    }
}

/// The waveform value of shape `wave_type` at `phase`, scaled by `AMP_ONE`.
pub open spec fn wave_fx(wave_type: WaveType, phase: int) -> int {
    match wave_type {
        WaveType::Sin => sine_fx(phase),
        WaveType::Saw => saw_fx(phase),
        WaveType::Triangle => triangle_fx(phase),
        WaveType::Square => square_fx(phase),
        WaveType::Pulse => pulse_fx(phase),
    }
}

/// Every waveform value lies within one fixed-point unit of amplitude.
pub proof fn lemma_wave_fx_bounds(wave_type: WaveType, phase: int)
    requires
        0 <= phase < PHASE_ONE as int,
    ensures
        -(AMP_ONE as int) <= wave_fx(wave_type, phase) <= AMP_ONE as int,
{
    match wave_type {
        WaveType::Sin => {
            if phase <= HALF_PHASE as int {
                lemma_half_sine_fx_bounds(phase);
            } else {
                lemma_half_sine_fx_bounds(phase - HALF_PHASE as int);
            }
        },
        WaveType::Saw => {
            let num = 2 * (AMP_ONE as int) * phase;
            assert(0 <= num <= 2 * (AMP_ONE as int) * (PHASE_ONE as int)) by (nonlinear_arith)
                requires
                    0 <= phase < PHASE_ONE as int,
                    num == 2 * (AMP_ONE as int) * phase,
            ;
            lemma_div_pos_is_pos(num, PHASE_ONE as int);
            lemma_div_is_ordered(num, 2 * (AMP_ONE as int) * (PHASE_ONE as int), PHASE_ONE as int);
            lemma_div_multiples_vanish(2 * (AMP_ONE as int), PHASE_ONE as int);
        },
        WaveType::Triangle => {
            let num = 4 * (AMP_ONE as int) * phase;
            assert(0 <= num <= 4 * (AMP_ONE as int) * (PHASE_ONE as int)) by (nonlinear_arith)
                requires
                    0 <= phase < PHASE_ONE as int,
                    num == 4 * (AMP_ONE as int) * phase,
            ;
            lemma_div_pos_is_pos(num, PHASE_ONE as int);
            lemma_div_is_ordered(num, 4 * (AMP_ONE as int) * (PHASE_ONE as int), PHASE_ONE as int);
            lemma_div_multiples_vanish(4 * (AMP_ONE as int), PHASE_ONE as int);
            let ramp = num / (PHASE_ONE as int);
            if 4 * phase <= PHASE_ONE as int {
                assert(num <= (AMP_ONE as int) * (PHASE_ONE as int)) by (nonlinear_arith)
                    requires
                        4 * phase <= PHASE_ONE as int,
                        num == 4 * (AMP_ONE as int) * phase,
                ;
                lemma_div_is_ordered(num, (AMP_ONE as int) * (PHASE_ONE as int), PHASE_ONE as int);
                lemma_div_multiples_vanish(AMP_ONE as int, PHASE_ONE as int);
            } else if 4 * phase <= 3 * PHASE_ONE as int {
                assert((AMP_ONE as int) * (PHASE_ONE as int) <= num <= 3 * (AMP_ONE as int) * (
                PHASE_ONE as int)) by (nonlinear_arith)
                    requires
                        (PHASE_ONE as int) < 4 * phase,
                        4 * phase <= 3 * (PHASE_ONE as int),
                        num == 4 * (AMP_ONE as int) * phase,
                ;
                lemma_div_is_ordered((AMP_ONE as int) * (PHASE_ONE as int), num, PHASE_ONE as int);
                lemma_div_is_ordered(num, 3 * (AMP_ONE as int) * (PHASE_ONE as int), PHASE_ONE as int);
                lemma_div_multiples_vanish(AMP_ONE as int, PHASE_ONE as int);
                lemma_div_multiples_vanish(3 * (AMP_ONE as int), PHASE_ONE as int);
            } else {
                assert(3 * (AMP_ONE as int) * (PHASE_ONE as int) <= num) by (nonlinear_arith)
                    requires
                        3 * (PHASE_ONE as int) < 4 * phase,
                        num == 4 * (AMP_ONE as int) * phase,
                ;
                lemma_div_is_ordered(3 * (AMP_ONE as int) * (PHASE_ONE as int), num, PHASE_ONE as int);
                lemma_div_multiples_vanish(3 * (AMP_ONE as int), PHASE_ONE as int);
            }
        },
        WaveType::Square => {},
        WaveType::Pulse => {},
    }
}

/// On the first half cycle, Bhaskara's approximation stays within `[0, AMP_ONE]`.
pub proof fn lemma_half_sine_fx_bounds(u: int)
    requires
        0 <= u <= HALF_PHASE as int,
    ensures
        0 <= half_sine_fx(u) <= AMP_ONE as int,
{
    let h = HALF_PHASE as int;
    let a = u * (h - u);
    assert(0 <= 4 * a <= h * h) by (nonlinear_arith)
        requires
            0 <= u <= h,
            a == u * (h - u),
    ;
    let num = 16 * a * (AMP_ONE as int);
    let den = 5 * (h * h) - 4 * a;
    assert(num >= 0) by (nonlinear_arith)
        requires
            a >= 0,
            num == 16 * a * (AMP_ONE as int),
    ;
    assert(num <= den * (AMP_ONE as int)) by (nonlinear_arith)
        requires
            4 * a <= h * h,
            num == 16 * a * (AMP_ONE as int),
            den == 5 * (h * h) - 4 * a,
    ;
    lemma_div_pos_is_pos(num, den);
    lemma_div_is_ordered(num, den * (AMP_ONE as int), den);
    lemma_div_multiples_vanish(AMP_ONE as int, den);
}

/// Computes `half_sine_fx` exactly.
fn half_sine_value(u: u64) -> (r: i64)
    requires
        u <= HALF_PHASE,
    ensures
        r == half_sine_fx(u as int),
        0 <= r <= AMP_ONE,
{
    let h: u128 = HALF_PHASE as u128;
    let x: u128 = u as u128;
    proof {
        assert(0 <= (x as int) * ((h as int) - (x as int)) <= (h as int) * (h as int)) by (
        nonlinear_arith)
            requires
                0 <= (x as int) <= (h as int),
        ;
        lemma_half_sine_fx_bounds(u as int);
    }
    let a: u128 = x * (h - x);
    proof {
        assert(4 * (a as int) <= (h as int) * (h as int)) by (nonlinear_arith)
            requires
                0 <= (x as int) <= (h as int),
                a as int == (x as int) * ((h as int) - (x as int)),
        ;
    }
    let num: u128 = 16 * a * (AMP_ONE as u128);
    let den: u128 = 5 * (h * h) - 4 * a;
    let q: u128 = num / den;
    q as i64
}

/// Computes `sine_fx` exactly.
pub fn sine_value(phase: u64) -> (r: i64)
    requires
        phase < PHASE_ONE,
    ensures
        r == sine_fx(phase as int),
        -(AMP_ONE as i64) <= r <= AMP_ONE as i64,
{
    if phase <= HALF_PHASE {
        half_sine_value(phase)
    } else {
        let m = half_sine_value(phase - HALF_PHASE);
        -m
    }
}

/// Computes `wave_fx` exactly: the waveform value of shape `wave_type` at
/// `phase`, scaled by `AMP_ONE`.
pub fn wave_value(wave_type: WaveType, phase: u64) -> (r: i64)
    requires
        phase < PHASE_ONE,
    ensures
        r == wave_fx(wave_type, phase as int),
        -(AMP_ONE as i64) <= r <= AMP_ONE as i64,
{
    proof {
        lemma_wave_fx_bounds(wave_type, phase as int);
    }
    match wave_type {
        WaveType::Sin => sine_value(phase),
        WaveType::Saw => {
            let ramp: u64 = (2 * AMP_ONE * phase) / PHASE_ONE;
            ramp as i64 - AMP_ONE as i64
        },
        WaveType::Triangle => {
            let ramp: u64 = (4 * AMP_ONE * phase) / PHASE_ONE;
            if 4 * phase <= PHASE_ONE {
                ramp as i64
            } else if 4 * phase <= 3 * PHASE_ONE {
                2 * (AMP_ONE as i64) - ramp as i64
            } else {
                ramp as i64 - 4 * (AMP_ONE as i64)
            }
        },
        WaveType::Square => {
            if phase > HALF_PHASE {
                AMP_ONE as i64
            } else {
                -(AMP_ONE as i64)
            }
        },
        WaveType::Pulse => {
            if 5 * phase < PHASE_ONE {
                AMP_ONE as i64
            } else {
                -(AMP_ONE as i64)
            }
        },
    }
}

/// Fixed-point scale of the ratio chains: a ratio of 1.0.
pub const RATIO_SCALE: u64 = 0x1_0000_0000;

/// `2^32 * 10^(1/20)`, rounded to the nearest integer: the amplitude ratio of
/// one decibel, in `RATIO_SCALE` units.
pub const DB_RATIO: u64 = 4819032567;

/// The lowest gain a voice can be set to, in whole decibels.
pub const GAIN_DB_MIN: i64 = -100;

/// The highest gain a voice can be set to, in whole decibels.
pub const GAIN_DB_MAX: i64 = 40;

/// Saturation guard of the decibel ratio chain. The chain is capped here so
/// that it is bounded by definition; within the allowed gain range the cap
/// lies strictly above every value the chain actually reaches.
pub const CHAIN_CAP: u64 = 0x2_0000_0000_0000;

/// A safe upper bound on the amplitude factor of any gain in range:
/// `AMP_ONE * CHAIN_CAP / RATIO_SCALE`.
pub const GAIN_FACTOR_LIMIT: u64 = 131_072_000_000;

/// `(10^(1/20))^n` in `RATIO_SCALE` units, built by repeated fixed-point
/// multiplication and saturated at `CHAIN_CAP`: the amplitude ratio of `n`
/// decibels.
pub open spec fn db_chain(n: nat) -> int
    decreases n,
{
    if n == 0 {
        RATIO_SCALE as int
    } else {
        let next = (db_chain((n - 1) as nat) * (DB_RATIO as int)) / (RATIO_SCALE as int);
        if next > CHAIN_CAP as int {
            CHAIN_CAP as int
        } else {
            next
        }
    }
}

/// The amplitude factor of a gain of `db` decibels, in `AMP_ONE` units:
/// the fixed-point form of `10^(db / 20)`.
pub open spec fn amp_of_db(db: int) -> int {
    if db >= 0 {
        ((AMP_ONE as int) * db_chain(db as nat)) / (RATIO_SCALE as int)
    } else {
        ((AMP_ONE as int) * (RATIO_SCALE as int)) / db_chain((-db) as nat)
    }
}

/// The decibel ratio chain stays between one and the saturation cap, and it
/// is monotone in the decibel count.
pub proof fn lemma_db_chain_monotone(a: nat, b: nat)
    requires
        a <= b,
    ensures
        (RATIO_SCALE as int) <= db_chain(a) <= db_chain(b) <= CHAIN_CAP as int,
    decreases b,
{
    if b > 0 {
        lemma_db_chain_monotone(if a == b {
            (b - 1) as nat
        } else {
            a
        }, (b - 1) as nat);
        let prev = db_chain((b - 1) as nat);
        assert(prev * (RATIO_SCALE as int) <= prev * (DB_RATIO as int)) by (nonlinear_arith)
            requires
                prev >= 0,
                (RATIO_SCALE as int) <= (DB_RATIO as int),
        ;
        lemma_div_is_ordered(prev * (RATIO_SCALE as int), prev * (DB_RATIO as int), RATIO_SCALE as int);
        lemma_div_multiples_vanish(prev, RATIO_SCALE as int);
    }
}

/// A gain within `[GAIN_DB_MIN, GAIN_DB_MAX]` yields an amplitude factor
/// within `[0, GAIN_FACTOR_LIMIT]`.
pub proof fn lemma_amp_of_db_bounds(db: int)
    requires
        GAIN_DB_MIN as int <= db <= GAIN_DB_MAX as int,
    ensures
        0 <= amp_of_db(db) <= GAIN_FACTOR_LIMIT as int,
{
    if db >= 0 {
        lemma_db_chain_monotone(db as nat, db as nat);
        lemma_div_pos_is_pos((AMP_ONE as int) * db_chain(db as nat), RATIO_SCALE as int);
        assert((AMP_ONE as int) * db_chain(db as nat) <= (AMP_ONE as int) * (CHAIN_CAP as int)) by (
        nonlinear_arith)
            requires
                0 <= db_chain(db as nat) <= CHAIN_CAP as int,
        ;
        lemma_div_is_ordered(
            (AMP_ONE as int) * db_chain(db as nat),
            (AMP_ONE as int) * (CHAIN_CAP as int),
            RATIO_SCALE as int,
        );
        lemma_div_multiples_vanish(GAIN_FACTOR_LIMIT as int, RATIO_SCALE as int);
    } else {
        lemma_db_chain_monotone(0, (-db) as nat);
        lemma_div_pos_is_pos((AMP_ONE as int) * (RATIO_SCALE as int), db_chain((-db) as nat));
        vstd::arithmetic::div_mod::lemma_div_is_ordered_by_denominator(
            (AMP_ONE as int) * (RATIO_SCALE as int),
            RATIO_SCALE as int,
            db_chain((-db) as nat),
        );
        lemma_div_multiples_vanish(AMP_ONE as int, RATIO_SCALE as int);
    }
}

/// Computes `amp_of_db` exactly: the fixed-point amplitude factor of a gain
/// given in whole decibels.
pub fn gain_to_amplitude(gain_db: i64) -> (amp: u64)
    requires
        GAIN_DB_MIN <= gain_db <= GAIN_DB_MAX,
    ensures
        amp == amp_of_db(gain_db as int),
        amp <= GAIN_FACTOR_LIMIT,
{
    let steps: u64 = if gain_db >= 0 {
        gain_db as u64
    } else {
        (-gain_db) as u64
    };
    let mut acc: u64 = RATIO_SCALE;
    let mut i: u64 = 0;
    proof {
        lemma_amp_of_db_bounds(gain_db as int);
    }
    while i < steps
        invariant
            i <= steps <= 100,
            acc == db_chain(i as nat),
            RATIO_SCALE <= acc <= CHAIN_CAP,
        decreases steps - i,
    {
        proof {
            lemma_db_chain_monotone(i as nat, (i + 1) as nat);
        }
        let next = (((acc as u128) * (DB_RATIO as u128)) / (RATIO_SCALE as u128)) as u64;
        acc = if next > CHAIN_CAP {
            CHAIN_CAP
        } else {
            next
        };
        i = i + 1;
    }
    if gain_db >= 0 {
        (((AMP_ONE as u128) * (acc as u128)) / (RATIO_SCALE as u128)) as u64
    } else {
        (((AMP_ONE as u128) * (RATIO_SCALE as u128)) / (acc as u128)) as u64
    }
}

/// A waveform value scaled by an amplitude factor of `amp / AMP_ONE`,
/// rounding the magnitude down so that scaling is symmetric around zero.
pub open spec fn amp_scaled(value: int, amp: int) -> int {
    if value >= 0 {
        (value * amp) / (AMP_ONE as int)
    } else {
        -(((-value) * amp) / (AMP_ONE as int))
    }
}

/// Scaling by a factor at most `max_factor / AMP_ONE` keeps a value within
/// `bound * max_factor / AMP_ONE` of zero.
pub proof fn lemma_amp_scaled_bound(value: int, amp: int, bound: int, max_factor: int)
    requires
        -bound <= value <= bound,
        0 <= amp <= max_factor,
    ensures
        -((bound * max_factor) / (AMP_ONE as int)) <= amp_scaled(value, amp) <= (bound * max_factor)
            / (AMP_ONE as int),
{
    let mag = if value >= 0 {
        value
    } else {
        -value
    };
    assert(0 <= mag * amp <= bound * max_factor) by (nonlinear_arith)
        requires
            0 <= mag <= bound,
            0 <= amp <= max_factor,
    ;
    lemma_div_pos_is_pos(mag * amp, AMP_ONE as int);
    lemma_div_is_ordered(mag * amp, bound * max_factor, AMP_ONE as int);
}

/// Computes `amp_scaled` exactly.
pub fn scale_amplitude(value: i64, amp: u64) -> (r: i64)
    requires
        value > i64::MIN,
        value >= 0 ==> (value as int) * (amp as int) <= i64::MAX as int,
        value < 0 ==> (-(value as int)) * (amp as int) <= i64::MAX as int,
    ensures
        r == amp_scaled(value as int, amp as int),
{
    let mag: u64 = if value >= 0 {
        value as u64
    } else {
        (-value) as u64
    };
    let prod: u128 = (mag as u128) * (amp as u128);
    proof {
        lemma_div_nonincreasing(prod as int, AMP_ONE as int);
        lemma_div_pos_is_pos(prod as int, AMP_ONE as int);
    }
    let q: u128 = prod / (AMP_ONE as u128);
    if value >= 0 {
        q as i64
    } else {
        -(q as i64)
    }
}

} // verus!
