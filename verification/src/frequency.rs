//! Twelve-tone equal temperament frequency mapping.
//!
//! `frequency(a4, index)` is `a4 * 2^((index - 69) / 12)`: the
//! reference note number 69 (concert A) sounds at the reference
//! frequency, and every twelve note numbers double it.  Frequencies are
//! millihertz; the twelve semitone ratios within one octave are
//! fixed-point constants scaled by `RATIO_SCALE`, with the ratio of the
//! reference note exactly 1, so the reference note and its upper octave
//! are exact.

use vstd::prelude::*;
use vstd::arithmetic::div_mod::{
    lemma_div_pos_is_pos, lemma_div_by_multiple, lemma_div_nonincreasing,
    lemma_multiply_divide_le,
};
use vstd::arithmetic::mul::lemma_mul_upper_bound;

verus! {

/// Note number of the reference note, concert A.
pub const A4_MIDI_VALUE: usize = 69;

/// Default reference frequency: 440 Hz, in millihertz.
pub const STANDARD_A4_FREQUENCY: u64 = 440000;

/// Highest accepted reference frequency, in millihertz.
pub const MAX_A4_FREQUENCY: u64 = 20000000;

/// Fixed-point scale of the semitone ratios: `2^24`.
pub const RATIO_SCALE: u64 = 16777216;

/// Largest value `frequency` can return, in millihertz.
pub const MAX_FREQUENCY: u64 = 604160000;

/// `2^(semitone / 12) * RATIO_SCALE`, rounded to the nearest integer,
/// for the twelve semitones of one octave.  The first entry is exactly
/// `RATIO_SCALE`.
pub open spec fn spec_semitone_ratio(semitone: int) -> int {
    if semitone == 0 { 16777216 }
    else if semitone == 1 { 17774841 }
    else if semitone == 2 { 18831788 }
    else if semitone == 3 { 19951585 }
    else if semitone == 4 { 21137968 }
    else if semitone == 5 { 22394897 }
    else if semitone == 6 { 23726566 }
    else if semitone == 7 { 25137421 }
    else if semitone == 8 { 26632170 }
    else if semitone == 9 { 28215802 }
    else if semitone == 10 { 29893600 }
    else { 31671166 }
}

/// `2^exponent` for the octave shifts the note range needs.
pub open spec fn spec_power_of_two(exponent: int) -> int {
    if exponent <= 0 { 1 }
    else if exponent == 1 { 2 }
    else if exponent == 2 { 4 }
    else if exponent == 3 { 8 }
    else if exponent == 4 { 16 }
    else if exponent == 5 { 32 }
    else { 64 }
}

/// The frequency of note `index` in millihertz when the reference note
/// sounds at `a4_frequency` millihertz: the semitone ratio applied to
/// the reference, shifted by whole octaves.  `index + 3` is a whole
/// number of octaves above the bottom of the note range exactly when
/// the note is a whole number of octaves away from the reference, which
/// sits six octaves up.
pub open spec fn spec_frequency(a4_frequency: int, index: int) -> int {
    let n = index + 3;
    let octave = n / 12;
    let semitone = n % 12;
    let base = a4_frequency * spec_semitone_ratio(semitone) / (RATIO_SCALE as int);
    if octave >= 6 {
        base * spec_power_of_two(octave - 6)
    } else {
        base / spec_power_of_two(6 - octave)
    }
}

/// The semitone ratio table.
fn semitone_ratio(semitone: u64) -> (ratio: u64)
    requires
        semitone < 12,
    ensures
        ratio == spec_semitone_ratio(semitone as int),
        16777216 <= ratio <= 31671166,
{
    match semitone {
        0 => 16777216,
        1 => 17774841,
        2 => 18831788,
        3 => 19951585,
        4 => 21137968,
        5 => 22394897,
        6 => 23726566,
        7 => 25137421,
        8 => 26632170,
        9 => 28215802,
        10 => 29893600,
        _ => 31671166,
    }
}

/// `2^exponent` for octave shifts.
fn power_of_two(exponent: u64) -> (power: u64)
    requires
        exponent <= 6,
    ensures
        power == spec_power_of_two(exponent as int),
        1 <= power <= 64,
{
    match exponent {
        0 => 1,
        1 => 2,
        2 => 4,
        3 => 8,
        4 => 16,
        5 => 32,
        _ => 64,
    }
}

/// The frequency of note `index`, in millihertz, under twelve-tone
/// equal temperament anchored at `a4_frequency`.
pub fn frequency(a4_frequency: u64, index: usize) -> (freq: u64)
    requires
        index < 128,
        1 <= a4_frequency <= MAX_A4_FREQUENCY,
    ensures
        freq == spec_frequency(a4_frequency as int, index as int),
        freq <= MAX_FREQUENCY,
{
    let n = (index as u64) + 3;
    let octave = n / 12;
    let semitone = n % 12;
    let ratio = semitone_ratio(semitone);
    proof {
        lemma_mul_upper_bound(a4_frequency as int, MAX_A4_FREQUENCY as int, ratio as int, 31671166);
        lemma_multiply_divide_le(
            a4_frequency as int * ratio as int,
            RATIO_SCALE as int,
            37760000,
        );
        lemma_div_pos_is_pos(a4_frequency as int * ratio as int, RATIO_SCALE as int);
    }
    let base = a4_frequency * ratio / RATIO_SCALE;
    if octave >= 6 {
        let power = power_of_two(octave - 6);
        proof {
            lemma_mul_upper_bound(base as int, 37760000, power as int, 16);
        }
        base * power
    } else {
        let power = power_of_two(6 - octave);
        proof {
            lemma_div_pos_is_pos(base as int, power as int);
            lemma_div_nonincreasing(base as int, power as int);
        }
        base / power
    }
}

/// The reference note sounds at the reference frequency exactly, and
/// the note twelve semitones above it at exactly twice the reference
/// frequency.
pub proof fn lemma_frequency_reference(a4_frequency: int)
    requires
        1 <= a4_frequency <= MAX_A4_FREQUENCY,
    ensures
        spec_frequency(a4_frequency, A4_MIDI_VALUE as int) == a4_frequency,
        spec_frequency(a4_frequency, A4_MIDI_VALUE as int + 12) == 2 * a4_frequency,
{
    lemma_div_by_multiple(a4_frequency, RATIO_SCALE as int);
    assert(a4_frequency * spec_semitone_ratio(0) == a4_frequency * (RATIO_SCALE as int));
}

} // verus!
