//! Oscillator waveforms.
//!
//! Each oscillator maps a phase to a signal value in
//! `[-AMPLITUDE_SCALE, AMPLITUDE_SCALE]`.  Phase is fixed-point: one
//! full cycle is `PHASE_SCALE` phase units, so a phase argument far
//! beyond one cycle simply wraps.  The triangle wave is piecewise
//! linear and the square and sawtooth waves piecewise constant and
//! linear in the phase, so all three are exact in this representation.

use vstd::prelude::*;
use vstd::arithmetic::div_mod::{
    lemma_div_is_ordered, lemma_div_pos_is_pos, lemma_div_by_multiple,
    lemma_multiply_divide_le,
};
use vstd::arithmetic::mul::lemma_mul_inequality;
use crate::{AMPLITUDE_SCALE, PHASE_SCALE};

verus! {

/// A quarter of a cycle, in phase units.
pub const QUARTER_PHASE: u64 = 0x40000000;

/// The triangle wave at `phase`: a linear ramp from 0 up to
/// `AMPLITUDE_SCALE` over the first quarter cycle, down to
/// `-AMPLITUDE_SCALE` over the middle half, and back to 0 over the last
/// quarter.
pub open spec fn spec_triangle(phase: int) -> int {
    let t = phase % (PHASE_SCALE as int);
    if t <= QUARTER_PHASE {
        4 * t * (AMPLITUDE_SCALE as int) / (PHASE_SCALE as int)
    } else if t <= 3 * QUARTER_PHASE {
        2 * (AMPLITUDE_SCALE as int) - 4 * t * (AMPLITUDE_SCALE as int) / (PHASE_SCALE as int)
    } else {
        4 * t * (AMPLITUDE_SCALE as int) / (PHASE_SCALE as int) - 4 * (AMPLITUDE_SCALE as int)
    }
}

/// The square wave at `phase`: `AMPLITUDE_SCALE` while the sine of the
/// phase is non-negative (the first half cycle), else
/// `-AMPLITUDE_SCALE`.
pub open spec fn spec_square(phase: int) -> int {
    let t = phase % (PHASE_SCALE as int);
    if t <= 2 * QUARTER_PHASE {
        AMPLITUDE_SCALE as int
    } else {
        -(AMPLITUDE_SCALE as int)
    }
}

/// The sawtooth wave at `phase`: the cycle count modulo 2, shifted down
/// by one, so the value ramps from `-AMPLITUDE_SCALE` to
/// `AMPLITUDE_SCALE` over two cycles.
pub open spec fn spec_sawtooth(phase: int) -> int {
    let t = phase % (2 * (PHASE_SCALE as int));
    t * (AMPLITUDE_SCALE as int) / (PHASE_SCALE as int) - (AMPLITUDE_SCALE as int)
}

/// Triangle oscillator.
pub fn triangle(phase: u64) -> (value: i64)
    ensures
        value == spec_triangle(phase as int),
        -(AMPLITUDE_SCALE as i64) <= value <= AMPLITUDE_SCALE as i64,
{
    let t = phase % PHASE_SCALE;
    if t <= QUARTER_PHASE {
        proof {
            lemma_mul_inequality(4 * t as int, PHASE_SCALE as int, AMPLITUDE_SCALE as int);
            lemma_multiply_divide_le(
                4 * t as int * AMPLITUDE_SCALE as int,
                PHASE_SCALE as int,
                AMPLITUDE_SCALE as int,
            );
            lemma_div_pos_is_pos(4 * t as int * AMPLITUDE_SCALE as int, PHASE_SCALE as int);
            assert(4 * t as int * AMPLITUDE_SCALE as int == (4 * t) as int * AMPLITUDE_SCALE as int);
        }
        (4 * t * AMPLITUDE_SCALE / PHASE_SCALE) as i64
    } else if t <= 3 * QUARTER_PHASE {
        proof {
            lemma_mul_inequality(4 * t as int, 3 * PHASE_SCALE as int, AMPLITUDE_SCALE as int);
            lemma_multiply_divide_le(
                4 * t as int * AMPLITUDE_SCALE as int,
                PHASE_SCALE as int,
                3 * AMPLITUDE_SCALE as int,
            );
            lemma_mul_inequality(PHASE_SCALE as int, 4 * t as int, AMPLITUDE_SCALE as int);
            lemma_div_is_ordered(
                PHASE_SCALE as int * AMPLITUDE_SCALE as int,
                4 * t as int * AMPLITUDE_SCALE as int,
                PHASE_SCALE as int,
            );
            lemma_div_by_multiple(AMPLITUDE_SCALE as int, PHASE_SCALE as int);
            assert(4 * t as int * AMPLITUDE_SCALE as int == (4 * t) as int * AMPLITUDE_SCALE as int);
        }
        let ramp = 4 * t * AMPLITUDE_SCALE / PHASE_SCALE;
        2 * (AMPLITUDE_SCALE as i64) - ramp as i64
    } else {
        proof {
            lemma_mul_inequality(4 * t as int, 4 * PHASE_SCALE as int, AMPLITUDE_SCALE as int);
            lemma_multiply_divide_le(
                4 * t as int * AMPLITUDE_SCALE as int,
                PHASE_SCALE as int,
                4 * AMPLITUDE_SCALE as int,
            );
            lemma_mul_inequality(3 * PHASE_SCALE as int, 4 * t as int, AMPLITUDE_SCALE as int);
            lemma_div_is_ordered(
                3 * PHASE_SCALE as int * AMPLITUDE_SCALE as int,
                4 * t as int * AMPLITUDE_SCALE as int,
                PHASE_SCALE as int,
            );
            lemma_div_by_multiple(3 * AMPLITUDE_SCALE as int, PHASE_SCALE as int);
            assert(3 * PHASE_SCALE as int * AMPLITUDE_SCALE as int
                == (3 * AMPLITUDE_SCALE as int) * PHASE_SCALE as int) by (nonlinear_arith);
            assert(4 * t as int * AMPLITUDE_SCALE as int == (4 * t) as int * AMPLITUDE_SCALE as int);
        }
        let ramp = 4 * t * AMPLITUDE_SCALE / PHASE_SCALE;
        ramp as i64 - 4 * (AMPLITUDE_SCALE as i64)
    }
}

/// Square oscillator.
pub fn square(phase: u64) -> (value: i64)
    ensures
        value == spec_square(phase as int),
        -(AMPLITUDE_SCALE as i64) <= value <= AMPLITUDE_SCALE as i64,
{
    let t = phase % PHASE_SCALE;
    if t <= 2 * QUARTER_PHASE {
        AMPLITUDE_SCALE as i64
    } else {
        -(AMPLITUDE_SCALE as i64)
    }
}

/// Sawtooth oscillator.
pub fn sawtooth(phase: u64) -> (value: i64)
    ensures
        value == spec_sawtooth(phase as int),
        -(AMPLITUDE_SCALE as i64) <= value <= AMPLITUDE_SCALE as i64,
{
    let t = phase % (2 * PHASE_SCALE);
    proof {
        lemma_mul_inequality(t as int, 2 * PHASE_SCALE as int, AMPLITUDE_SCALE as int);
        lemma_multiply_divide_le(
            t as int * AMPLITUDE_SCALE as int,
            PHASE_SCALE as int,
            2 * AMPLITUDE_SCALE as int,
        );
        lemma_div_pos_is_pos(t as int * AMPLITUDE_SCALE as int, PHASE_SCALE as int);
        assert(2 * PHASE_SCALE as int * AMPLITUDE_SCALE as int
            == (2 * AMPLITUDE_SCALE as int) * PHASE_SCALE as int) by (nonlinear_arith);
    }
    let ramp = t * AMPLITUDE_SCALE / PHASE_SCALE;
    ramp as i64 - AMPLITUDE_SCALE as i64
}

} // verus!
