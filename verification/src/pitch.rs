//! The pitch scale: mapping a position in cents (hundredths of an equal-
//! tempered semitone) to a frequency in milli-hertz.
//!
//! Note number 0 sounds at the base frequency of 220 Hz and each semitone
//! multiplies the frequency by the twelfth root of two. The mapping is
//! computed in fixed point: one cent multiplies a `RATIO_SCALE`-scaled
//! accumulator by `CENT_RATIO`, and whole octaves are exact powers of two.

use vstd::arithmetic::div_mod::{
    lemma_div_is_ordered, lemma_div_multiples_vanish, lemma_div_pos_is_pos,
    lemma_fundamental_div_mod_converse,
};
use vstd::arithmetic::power2::pow2;
use vstd::prelude::*;

use crate::fixed::RATIO_SCALE;

verus! {

/// `2^32 * 2^(1/1200)`, rounded to the nearest integer: the frequency ratio
/// of one cent, in `RATIO_SCALE` units.
pub const CENT_RATIO: u64 = 4297448883;

/// Saturation guard of the cent ratio chain: the exact ratio of one whole
/// octave. The chain approaches but never reaches it within one octave, so
/// the guard never changes a value; it makes the chain's one-octave bound
/// definitional.
pub const CENT_CAP: u64 = 0x2_0000_0000;

/// The frequency of note number 0, in milli-hertz (220 Hz).
pub const BASE_FREQUENCY_MHZ: u64 = 220_000;

/// Number of cents in one octave.
pub const CENTS_PER_OCTAVE: u64 = 1200;

/// The lowest pitch the engine represents: seven octaves below the base
/// frequency, where milli-hertz resolution begins to run out.
pub const CENTS_MIN: i64 = -8400;

/// The highest pitch the engine represents: twelve octaves above the base
/// frequency, far beyond the audible range.
pub const CENTS_MAX: i64 = 14400;

/// Every frequency the pitch scale produces lies strictly below this bound.
pub const FREQ_LIMIT_MHZ: u64 = 0x1_0000_0000;

/// `(2^(1/1200))^n` in `RATIO_SCALE` units, built by repeated fixed-point
/// multiplication and saturated at `CENT_CAP`: the frequency ratio of `n`
/// cents.
pub open spec fn cent_chain(n: nat) -> int
    decreases n,
{
    if n == 0 {
        RATIO_SCALE as int
    } else {
        let next = (cent_chain((n - 1) as nat) * (CENT_RATIO as int)) / (RATIO_SCALE as int);
        if next > CENT_CAP as int {
            CENT_CAP as int
        } else {
            next
        }
    }
}

/// The frequency, in milli-hertz, of the pitch `cents` hundredths of a
/// semitone away from note number 0: the fixed-point form of
/// `220000 * 2^(cents / 1200)`.
pub open spec fn freq_of_cents(cents: int) -> int {
    let octave = cents / (CENTS_PER_OCTAVE as int);
    let rest = cents % (CENTS_PER_OCTAVE as int);
    let scaled = (BASE_FREQUENCY_MHZ as int) * cent_chain(rest as nat);
    if octave >= 0 {
        (scaled * pow2(octave as nat)) / (RATIO_SCALE as int)
    } else {
        scaled / ((RATIO_SCALE as int) * pow2((-octave) as nat))
    }
}

/// The cent ratio chain stays between one and the saturation cap, and it is
/// monotone in the cent count.
pub proof fn lemma_cent_chain_monotone(a: nat, b: nat)
    requires
        a <= b,
    ensures
        (RATIO_SCALE as int) <= cent_chain(a) <= cent_chain(b) <= CENT_CAP as int,
    decreases b,
{
    if b > 0 {
        lemma_cent_chain_monotone(if a == b {
            (b - 1) as nat
        } else {
            a
        }, (b - 1) as nat);
        let prev = cent_chain((b - 1) as nat);
        assert(prev * (RATIO_SCALE as int) <= prev * (CENT_RATIO as int)) by (nonlinear_arith)
            requires
                prev >= 0,
                (RATIO_SCALE as int) <= (CENT_RATIO as int),
        ;
        lemma_div_is_ordered(
            prev * (RATIO_SCALE as int),
            prev * (CENT_RATIO as int),
            RATIO_SCALE as int,
        );
        lemma_div_multiples_vanish(prev, RATIO_SCALE as int);
    }
}

/// Every pitch in range maps to a nonzero frequency strictly below
/// `FREQ_LIMIT_MHZ`.
pub proof fn lemma_freq_of_cents_bounds(cents: int)
    requires
        CENTS_MIN as int <= cents <= CENTS_MAX as int,
    ensures
        0 < freq_of_cents(cents) < FREQ_LIMIT_MHZ as int,
{
    let octave = cents / (CENTS_PER_OCTAVE as int);
    let rest = cents % (CENTS_PER_OCTAVE as int);
    assert(-7 <= octave <= 12 && 0 <= rest < 1200);
    lemma_cent_chain_monotone(rest as nat, rest as nat);
    let scaled = (BASE_FREQUENCY_MHZ as int) * cent_chain(rest as nat);
    assert((BASE_FREQUENCY_MHZ as int) * (RATIO_SCALE as int) <= scaled <= (BASE_FREQUENCY_MHZ
        as int) * (CENT_CAP as int)) by (nonlinear_arith)
        requires
            (RATIO_SCALE as int) <= cent_chain(rest as nat) <= CENT_CAP as int,
            scaled == (BASE_FREQUENCY_MHZ as int) * cent_chain(rest as nat),
    ;
    if octave >= 0 {
        vstd::arithmetic::power2::lemma_pow2_pos(octave as nat);
        vstd::arithmetic::power2::lemma2_to64();
        vstd::arithmetic::power2::lemma_pow2_strictly_increases(octave as nat, 13);
        let p = pow2(octave as nat) as int;
        let num = scaled * p;
        assert(scaled <= num <= scaled * 4096) by (nonlinear_arith)
            requires
                1 <= p <= 4096,
                scaled >= 0,
                num == scaled * p,
        ;
        lemma_div_pos_is_pos(num, RATIO_SCALE as int);
        lemma_div_is_ordered(
            (BASE_FREQUENCY_MHZ as int) * (RATIO_SCALE as int),
            num,
            RATIO_SCALE as int,
        );
        lemma_div_multiples_vanish(BASE_FREQUENCY_MHZ as int, RATIO_SCALE as int);
        lemma_div_is_ordered(num, (BASE_FREQUENCY_MHZ as int) * (CENT_CAP as int) * 4096, RATIO_SCALE as int);
        assert(num <= (BASE_FREQUENCY_MHZ as int) * (CENT_CAP as int) * 4096) by (nonlinear_arith)
            requires
                num == scaled * p,
                p <= 4096,
                scaled >= 0,
                scaled <= (BASE_FREQUENCY_MHZ as int) * (CENT_CAP as int),
        ;
        assert(((BASE_FREQUENCY_MHZ as int) * (CENT_CAP as int) * 4096) / (RATIO_SCALE as int)
            < FREQ_LIMIT_MHZ as int);
    } else {
        vstd::arithmetic::power2::lemma_pow2_pos((-octave) as nat);
        vstd::arithmetic::power2::lemma2_to64();
        vstd::arithmetic::power2::lemma_pow2_strictly_increases((-octave) as nat, 8);
        let p = pow2((-octave) as nat) as int;
        let den = (RATIO_SCALE as int) * p;
        assert((RATIO_SCALE as int) <= den <= (RATIO_SCALE as int) * 128) by (nonlinear_arith)
            requires
                1 <= p <= 128,
                den == (RATIO_SCALE as int) * p,
        ;
        lemma_div_pos_is_pos(scaled, den);
        vstd::arithmetic::div_mod::lemma_div_is_ordered_by_denominator(
            scaled,
            den,
            (RATIO_SCALE as int) * 128,
        );
        assert(scaled / ((RATIO_SCALE as int) * 128) >= 1) by {
            lemma_div_is_ordered(
                (BASE_FREQUENCY_MHZ as int) * (RATIO_SCALE as int),
                scaled,
                (RATIO_SCALE as int) * 128,
            );
        }
        vstd::arithmetic::div_mod::lemma_div_is_ordered_by_denominator(scaled, RATIO_SCALE as int, den);
        lemma_div_is_ordered(scaled, (BASE_FREQUENCY_MHZ as int) * (CENT_CAP as int), RATIO_SCALE as int);
        lemma_div_multiples_vanish((BASE_FREQUENCY_MHZ as int) * 2, RATIO_SCALE as int);
        assert((BASE_FREQUENCY_MHZ as int) * (CENT_CAP as int) == ((BASE_FREQUENCY_MHZ as int) * 2)
            * (RATIO_SCALE as int)) by (nonlinear_arith);
    }
}

/// Scaling numerator and denominator by the same positive factor leaves a
/// quotient unchanged.
proof fn lemma_div_common_scale(a: int, k: int, d: int)
    requires
        a >= 0,
        k > 0,
        d > 0,
    ensures
        (a * k) / (d * k) == a / d,
{
    let q = a / d;
    let r = a % d;
    vstd::arithmetic::div_mod::lemma_fundamental_div_mod(a, d);
    assert(a * k == q * (d * k) + r * k) by (nonlinear_arith)
        requires
            a == d * q + r,
    ;
    assert(0 <= r * k < d * k) by (nonlinear_arith)
        requires
            0 <= r < d,
            k > 0,
    ;
    lemma_fundamental_div_mod_converse(a * k, d * k, q, r * k);
}

/// Every pitch's frequency, written over one common denominator of seven
/// octaves below the base: `freq_of_cents(c)` is the floor of
/// `220000 * cent_chain(c % 1200) * 2^(c/1200 + 7) / (RATIO_SCALE * 128)`.
proof fn lemma_freq_scaled_form(c: int)
    requires
        CENTS_MIN as int <= c <= CENTS_MAX as int,
    ensures
        freq_of_cents(c) == ((BASE_FREQUENCY_MHZ as int) * cent_chain(
            (c % (CENTS_PER_OCTAVE as int)) as nat,
        ) * (pow2((c / (CENTS_PER_OCTAVE as int) + 7) as nat) as int)) / ((RATIO_SCALE as int)
            * 128),
{
    let octave = c / (CENTS_PER_OCTAVE as int);
    let rest = c % (CENTS_PER_OCTAVE as int);
    assert(-7 <= octave <= 12 && 0 <= rest < 1200);
    lemma_cent_chain_monotone(rest as nat, rest as nat);
    let scaled = (BASE_FREQUENCY_MHZ as int) * cent_chain(rest as nat);
    assert(scaled >= 0) by (nonlinear_arith)
        requires
            cent_chain(rest as nat) >= 0,
            scaled == (BASE_FREQUENCY_MHZ as int) * cent_chain(rest as nat),
    ;
    vstd::arithmetic::power2::lemma2_to64();
    if octave >= 0 {
        vstd::arithmetic::power2::lemma_pow2_pos(octave as nat);
        vstd::arithmetic::power2::lemma_pow2_adds(octave as nat, 7);
        let p = pow2(octave as nat) as int;
        assert(scaled * p >= 0) by (nonlinear_arith)
            requires
                scaled >= 0,
                p >= 1,
        ;
        lemma_div_common_scale(scaled * p, 128, RATIO_SCALE as int);
        assert(scaled * p * 128 == scaled * (pow2((octave + 7) as nat) as int)) by (nonlinear_arith)
            requires
                pow2((octave + 7) as nat) == pow2(octave as nat) * pow2(7),
                pow2(7) == 128,
                p == pow2(octave as nat) as int,
        ;
    } else {
        vstd::arithmetic::power2::lemma_pow2_pos((-octave) as nat);
        vstd::arithmetic::power2::lemma_pow2_pos((octave + 7) as nat);
        vstd::arithmetic::power2::lemma_pow2_adds((-octave) as nat, (octave + 7) as nat);
        let down = pow2((-octave) as nat) as int;
        let up = pow2((octave + 7) as nat) as int;
        assert((RATIO_SCALE as int) * down > 0) by (nonlinear_arith)
            requires
                down >= 1,
        ;
        lemma_div_common_scale(scaled, up, (RATIO_SCALE as int) * down);
        assert((RATIO_SCALE as int) * down * up == (RATIO_SCALE as int) * 128) by (nonlinear_arith)
            requires
                down * up == pow2(7),
                pow2(7) == 128,
        ;
    }
}

/// The pitch scale is monotone: a higher pitch never maps to a lower
/// frequency. (At the milli-hertz resolution, pitches a fraction of a cent
/// apart in the lowest octaves can share a frequency, so the ordering is
/// non-strict.)
pub proof fn lemma_freq_of_cents_monotone(c1: int, c2: int)
    requires
        CENTS_MIN as int <= c1 <= c2 <= CENTS_MAX as int,
    ensures
        freq_of_cents(c1) <= freq_of_cents(c2),
{
    lemma_freq_scaled_form(c1);
    lemma_freq_scaled_form(c2);
    let q1 = c1 / (CENTS_PER_OCTAVE as int);
    let r1 = c1 % (CENTS_PER_OCTAVE as int);
    let q2 = c2 / (CENTS_PER_OCTAVE as int);
    let r2 = c2 % (CENTS_PER_OCTAVE as int);
    assert(-7 <= q1 && q2 <= 12 && 0 <= r1 < 1200 && 0 <= r2 < 1200);
    vstd::arithmetic::div_mod::lemma_div_is_ordered(c1, c2, CENTS_PER_OCTAVE as int);
    vstd::arithmetic::power2::lemma2_to64();
    vstd::arithmetic::power2::lemma_pow2_pos((q1 + 7) as nat);
    vstd::arithmetic::power2::lemma_pow2_pos((q2 + 7) as nat);
    let p1 = pow2((q1 + 7) as nat) as int;
    let p2 = pow2((q2 + 7) as nat) as int;
    let a1 = (BASE_FREQUENCY_MHZ as int) * cent_chain(r1 as nat) * p1;
    let a2 = (BASE_FREQUENCY_MHZ as int) * cent_chain(r2 as nat) * p2;
    if q1 == q2 {
        vstd::arithmetic::div_mod::lemma_fundamental_div_mod(c1, CENTS_PER_OCTAVE as int);
        vstd::arithmetic::div_mod::lemma_fundamental_div_mod(c2, CENTS_PER_OCTAVE as int);
        lemma_cent_chain_monotone(r1 as nat, r2 as nat);
        assert(a1 <= a2) by (nonlinear_arith)
            requires
                0 <= cent_chain(r1 as nat) <= cent_chain(r2 as nat),
                p1 == p2,
                p1 >= 1,
                a1 == (BASE_FREQUENCY_MHZ as int) * cent_chain(r1 as nat) * p1,
                a2 == (BASE_FREQUENCY_MHZ as int) * cent_chain(r2 as nat) * p2,
        ;
    } else {
        lemma_cent_chain_monotone(r1 as nat, r1 as nat);
        lemma_cent_chain_monotone(r2 as nat, r2 as nat);
        vstd::arithmetic::power2::lemma_pow2_adds((q1 + 7) as nat, 1);
        if ((q1 + 8) as nat) < ((q2 + 7) as nat) {
            vstd::arithmetic::power2::lemma_pow2_strictly_increases(
                (q1 + 8) as nat,
                (q2 + 7) as nat,
            );
        }
        assert(pow2((q1 + 8) as nat) <= pow2((q2 + 7) as nat));
        assert(a1 <= a2) by (nonlinear_arith)
            requires
                0 <= cent_chain(r1 as nat) <= CENT_CAP as int,
                (CENT_CAP as int) == 2 * (RATIO_SCALE as int),
                (RATIO_SCALE as int) <= cent_chain(r2 as nat),
                pow2((q1 + 8) as nat) == 2 * pow2((q1 + 7) as nat),
                pow2((q1 + 8) as nat) <= pow2((q2 + 7) as nat),
                p1 == pow2((q1 + 7) as nat) as int,
                p2 == pow2((q2 + 7) as nat) as int,
                p1 >= 1,
                a1 == (BASE_FREQUENCY_MHZ as int) * cent_chain(r1 as nat) * p1,
                a2 == (BASE_FREQUENCY_MHZ as int) * cent_chain(r2 as nat) * p2,
        ;
    }
    lemma_div_is_ordered(a1, a2, (RATIO_SCALE as int) * 128);
}

/// Computes `freq_of_cents` exactly: the frequency, in milli-hertz, of a
/// pitch given in cents relative to note number 0.
pub fn frequency_from_cents(cents: i64) -> (freq: u64)
    requires
        CENTS_MIN <= cents <= CENTS_MAX,
    ensures
        freq == freq_of_cents(cents as int),
        0 < freq < FREQ_LIMIT_MHZ,
{
    proof {
        lemma_freq_of_cents_bounds(cents as int);
    }
    // Shift by seven whole octaves so the Euclidean split can be taken on a
    // non-negative value.
    let shifted: u64 = (cents + 8400) as u64;
    let rest: u64 = shifted % CENTS_PER_OCTAVE;
    let oct_shifted: u64 = shifted / CENTS_PER_OCTAVE;
    proof {
        lemma_fundamental_div_mod_converse(
            cents as int,
            CENTS_PER_OCTAVE as int,
            oct_shifted as int - 7,
            rest as int,
        );
    }
    // The cent ratio chain over the in-octave remainder.
    let mut acc: u64 = RATIO_SCALE;
    let mut i: u64 = 0;
    while i < rest
        invariant
            i <= rest < 1200,
            acc == cent_chain(i as nat),
            RATIO_SCALE <= acc <= CENT_CAP,
        decreases rest - i,
    {
        proof {
            lemma_cent_chain_monotone(i as nat, (i + 1) as nat);
        }
        let next = (((acc as u128) * (CENT_RATIO as u128)) / (RATIO_SCALE as u128)) as u64;
        acc = if next > CENT_CAP {
            CENT_CAP
        } else {
            next
        };
        i = i + 1;
    }
    let scaled: u128 = (BASE_FREQUENCY_MHZ as u128) * (acc as u128);
    if oct_shifted >= 7 {
        let mut p: u64 = 1;
        let mut j: u64 = 0;
        let e: u64 = oct_shifted - 7;
        proof {
            vstd::arithmetic::power2::lemma2_to64();
        }
        while j < e
            invariant
                j <= e <= 12,
                p == pow2(j as nat),
                p <= 4096,
            decreases e - j,
        {
            proof {
                vstd::arithmetic::power2::lemma_pow2_unfold((j + 1) as nat);
                vstd::arithmetic::power2::lemma_pow2_strictly_increases((j + 1) as nat, 13);
                vstd::arithmetic::power2::lemma2_to64();
            }
            p = p * 2;
            j = j + 1;
        }
        ((scaled * (p as u128)) / (RATIO_SCALE as u128)) as u64
    } else {
        let mut p: u64 = 1;
        let mut j: u64 = 0;
        let e: u64 = 7 - oct_shifted;
        proof {
            vstd::arithmetic::power2::lemma2_to64();
        }
        while j < e
            invariant
                j <= e <= 7,
                p == pow2(j as nat),
                p <= 128,
            decreases e - j,
        {
            proof {
                vstd::arithmetic::power2::lemma_pow2_unfold((j + 1) as nat);
                vstd::arithmetic::power2::lemma_pow2_strictly_increases((j + 1) as nat, 8);
                vstd::arithmetic::power2::lemma2_to64();
            }
            p = p * 2;
            j = j + 1;
        }
        (scaled / ((RATIO_SCALE as u128) * (p as u128))) as u64
    }
}


} // verus!
