//! Attack-decay-sustain-release envelope.
//!
//! The envelope turns a note's lifecycle timestamps and the current
//! tick into an amplitude multiplier in `[0, AMPLITUDE_SCALE]` fixed-point
//! units.  Attack, decay and release are stored in milliseconds and
//! converted to ticks against the stream's sample rate; sustain is an
//! amplitude in fixed-point units.

use vstd::prelude::*;
use vstd::arithmetic::div_mod::{
    lemma_div_is_ordered, lemma_div_pos_is_pos, lemma_div_by_multiple, lemma_div_of0,
    lemma_multiply_divide_le,
};
use vstd::arithmetic::mul::{lemma_mul_inequality, lemma_mul_upper_bound};
use crate::note::Note;
use crate::{AMPLITUDE_SCALE, LOWEST_AMPLITUDE, valid_sample_rate};

verus! {

/// Default attack time: the initial rise of the amplitude.
pub const DEFAULT_ATTACK_MS: u64 = 800;

/// Default decay time: the descent of the amplitude into the sustain.
pub const DEFAULT_DECAY_MS: u64 = 5000;

/// Default sustain level: the amplitude the note has while held.
pub const DEFAULT_SUSTAIN: u64 = 0;

/// Default release time: the descent into quiet after the key is
/// released.
pub const DEFAULT_RELEASE_MS: u64 = 200;

/// Longest representable envelope stage, in milliseconds.
pub const MAX_STAGE_MS: u64 = 1000000;

/// Number of ticks a stage of `ms` milliseconds lasts at `sample_rate`
/// ticks per second.
pub open spec fn spec_stage_ticks(ms: int, sample_rate: int) -> int {
    ms * sample_rate / 1000
}

/// Envelope parameters, shared by every note of a synthesizer.
#[derive(Clone, Copy, PartialEq, Eq, Structural, Debug)]
pub struct Envelope {
    pub attack_ms: u64,
    pub decay_ms: u64,
    pub sustain: u64,
    pub release_ms: u64,
}

impl Envelope {
    /// Each stage lasts between one millisecond and `MAX_STAGE_MS`, and
    /// the sustain level is a valid amplitude.
    pub open spec fn wf(self) -> bool {
        &&& 1 <= self.attack_ms <= MAX_STAGE_MS
        &&& 1 <= self.decay_ms <= MAX_STAGE_MS
        &&& 1 <= self.release_ms <= MAX_STAGE_MS
        &&& self.sustain <= AMPLITUDE_SCALE
    }

    /// The attack-decay-sustain value for a note that has been sounding
    /// for `lifetime` ticks: a linear ramp from 0 to `AMPLITUDE_SCALE`
    /// over the attack, a linear ramp down to `sustain` over the decay,
    /// then `sustain`.
    pub open spec fn spec_ads(self, lifetime: int, sample_rate: int) -> int {
        let attack = spec_stage_ticks(self.attack_ms as int, sample_rate);
        let decay = spec_stage_ticks(self.decay_ms as int, sample_rate);
        if lifetime <= attack {
            lifetime * (AMPLITUDE_SCALE as int) / attack
        } else if lifetime <= attack + decay {
            AMPLITUDE_SCALE - (lifetime - attack) * (AMPLITUDE_SCALE - self.sustain) / decay
        } else {
            self.sustain as int
        }
    }

    /// The amplitude of `note` at `tick`: the attack-decay-sustain
    /// value while the note is pressed; after release, that value
    /// scaled by the remaining fraction of the release stage, clamped
    /// to 0 once it falls to the audibility floor.
    pub open spec fn spec_amplitude(self, note: Note, tick: int, sample_rate: int) -> int {
        let ads = self.spec_ads(tick - note.tick_pressed, sample_rate);
        if note.pressed {
            ads
        } else {
            let deathtime = tick - note.tick_released;
            let release = spec_stage_ticks(self.release_ms as int, sample_rate);
            if deathtime >= release {
                0
            } else {
                let release_value = (release - deathtime) * ads / release;
                if release_value <= LOWEST_AMPLITUDE {
                    0
                } else {
                    release_value
                }
            }
        }
    }

    /// Whether evaluating `note` at `tick` silences the voice: the note
    /// is released and its release tail has fallen to the audibility
    /// floor.
    pub open spec fn spec_deactivates(self, note: Note, tick: int, sample_rate: int) -> bool {
        let ads = self.spec_ads(tick - note.tick_pressed, sample_rate);
        let deathtime = tick - note.tick_released;
        let release = spec_stage_ticks(self.release_ms as int, sample_rate);
        &&& !note.pressed
        &&& (deathtime >= release || (release - deathtime) * ads / release <= LOWEST_AMPLITUDE)
    }

    /// The default envelope.
    pub fn new() -> (env: Envelope)
        ensures
            env == (Envelope {
                attack_ms: DEFAULT_ATTACK_MS,
                decay_ms: DEFAULT_DECAY_MS,
                sustain: DEFAULT_SUSTAIN,
                release_ms: DEFAULT_RELEASE_MS,
            }),
            env.wf(),
    {
        Envelope {
            attack_ms: DEFAULT_ATTACK_MS,
            decay_ms: DEFAULT_DECAY_MS,
            sustain: DEFAULT_SUSTAIN,
            release_ms: DEFAULT_RELEASE_MS,
        }
    }

    /// Converts a stage length in milliseconds to ticks.
    fn stage_ticks(ms: u64, sample_rate: u64) -> (ticks: u64)
        requires
            1 <= ms <= MAX_STAGE_MS,
            valid_sample_rate(sample_rate),
        ensures
            ticks == spec_stage_ticks(ms as int, sample_rate as int),
            1 <= ticks <= 1000000000,
    {
        proof {
            lemma_mul_inequality(1, ms as int, sample_rate as int);
            lemma_mul_upper_bound(ms as int, MAX_STAGE_MS as int, sample_rate as int, 1000000);
            lemma_div_is_ordered(1000, ms as int * sample_rate as int, 1000);
            lemma_div_is_ordered(ms as int * sample_rate as int, 1000000000000, 1000);
        }
        ms * sample_rate / 1000
    }

    /// The attack-decay-sustain value for a note `lifetime` ticks after
    /// its press.
    fn get_ads(&self, lifetime: u64, sample_rate: u64) -> (ads: u64)
        requires
            self.wf(),
            valid_sample_rate(sample_rate),
        ensures
            ads == self.spec_ads(lifetime as int, sample_rate as int),
            ads <= AMPLITUDE_SCALE,
    {
        let attack = Envelope::stage_ticks(self.attack_ms, sample_rate);
        if lifetime <= attack {
            proof {
                lemma_mul_inequality(lifetime as int, attack as int, AMPLITUDE_SCALE as int);
                lemma_multiply_divide_le(
                    lifetime as int * AMPLITUDE_SCALE as int,
                    attack as int,
                    AMPLITUDE_SCALE as int,
                );
                lemma_div_pos_is_pos(lifetime as int * AMPLITUDE_SCALE as int, attack as int);
            }
            lifetime * AMPLITUDE_SCALE / attack
        } else {
            let decay = Envelope::stage_ticks(self.decay_ms, sample_rate);
            if lifetime <= attack + decay {
                proof {
                    lemma_mul_inequality(
                        (lifetime - attack) as int,
                        decay as int,
                        (AMPLITUDE_SCALE - self.sustain) as int,
                    );
                    lemma_mul_upper_bound(
                        (lifetime - attack) as int,
                        1000000000,
                        (AMPLITUDE_SCALE - self.sustain) as int,
                        1000000,
                    );
                    lemma_multiply_divide_le(
                        (lifetime - attack) as int * (AMPLITUDE_SCALE - self.sustain) as int,
                        decay as int,
                        (AMPLITUDE_SCALE - self.sustain) as int,
                    );
                    lemma_div_pos_is_pos(
                        (lifetime - attack) as int * (AMPLITUDE_SCALE - self.sustain) as int,
                        decay as int,
                    );
                }
                let loss = (lifetime - attack) * (AMPLITUDE_SCALE - self.sustain) / decay;
                AMPLITUDE_SCALE - loss
            } else {
                self.sustain
            }
        }
    }

    /// Computes the amplitude of `note` at `tick` and silences the
    /// voice when its release tail has become inaudible.
    pub fn get_amplitude_of_note(&self, note: &mut Note, tick: u64, sample_rate: u64)
        -> (amplitude: u64)
        requires
            self.wf(),
            valid_sample_rate(sample_rate),
            old(note).tick_pressed <= tick,
            !old(note).pressed ==> old(note).tick_released <= tick,
        ensures
            amplitude == self.spec_amplitude(*old(note), tick as int, sample_rate as int),
            amplitude <= AMPLITUDE_SCALE,
            *final(note) == (if self.spec_deactivates(*old(note), tick as int, sample_rate as int) {
                old(note).spec_deactivate()
            } else {
                *old(note)
            }),
    {
        let lifetime = tick - note.get_tick_pressed();
        let ads = self.get_ads(lifetime, sample_rate);
        if note.get_pressed() {
            ads
        } else {
            let deathtime = tick - note.get_tick_released();
            let release = Envelope::stage_ticks(self.release_ms, sample_rate);
            if deathtime >= release {
                note.deactivate();
                0
            } else {
                proof {
                    lemma_mul_inequality((release - deathtime) as int, release as int, ads as int);
                    lemma_mul_upper_bound(
                        (release - deathtime) as int,
                        1000000000,
                        ads as int,
                        1000000,
                    );
                    lemma_multiply_divide_le(
                        (release - deathtime) as int * ads as int,
                        release as int,
                        ads as int,
                    );
                    lemma_div_pos_is_pos((release - deathtime) as int * ads as int, release as int);
                }
                let release_value = (release - deathtime) * ads / release;
                if release_value <= LOWEST_AMPLITUDE {
                    note.deactivate();
                    0
                } else {
                    release_value
                }
            }
        }
    }
}

/// A stage of a well-formed envelope lasts at least one tick and at
/// most a bounded number of them at any accepted sample rate.
pub proof fn lemma_stage_ticks_bounds(ms: int, sample_rate: int)
    requires
        1 <= ms <= MAX_STAGE_MS,
        1000 <= sample_rate <= 1000000,
    ensures
        1 <= spec_stage_ticks(ms, sample_rate) <= 1000000000,
{
    lemma_mul_inequality(1, ms, sample_rate);
    lemma_div_is_ordered(1000, ms * sample_rate, 1000);
    lemma_mul_upper_bound(ms, MAX_STAGE_MS as int, sample_rate, 1000000);
    lemma_div_is_ordered(ms * sample_rate, 1000000000000, 1000);
}

/// The attack-decay-sustain value is an amplitude: it lies between 0
/// and `AMPLITUDE_SCALE`.
pub proof fn lemma_ads_bounds(env: Envelope, lifetime: int, sample_rate: int)
    requires
        env.wf(),
        1000 <= sample_rate <= 1000000,
        0 <= lifetime,
    ensures
        0 <= env.spec_ads(lifetime, sample_rate) <= AMPLITUDE_SCALE,
{
    lemma_stage_ticks_bounds(env.attack_ms as int, sample_rate);
    lemma_stage_ticks_bounds(env.decay_ms as int, sample_rate);
    let attack = spec_stage_ticks(env.attack_ms as int, sample_rate);
    let decay = spec_stage_ticks(env.decay_ms as int, sample_rate);
    if lifetime <= attack {
        lemma_mul_inequality(lifetime, attack, AMPLITUDE_SCALE as int);
        lemma_multiply_divide_le(
            lifetime * (AMPLITUDE_SCALE as int), attack, AMPLITUDE_SCALE as int);
        lemma_div_pos_is_pos(lifetime * (AMPLITUDE_SCALE as int), attack);
    } else if lifetime <= attack + decay {
        lemma_mul_inequality(lifetime - attack, decay, AMPLITUDE_SCALE - env.sustain);
        lemma_multiply_divide_le(
            (lifetime - attack) * (AMPLITUDE_SCALE - env.sustain),
            decay,
            AMPLITUDE_SCALE - env.sustain);
        lemma_div_pos_is_pos((lifetime - attack) * (AMPLITUDE_SCALE - env.sustain), decay);
    }
}

/// The envelope starts silent and reaches full amplitude exactly at
/// the end of the attack: the attack-decay-sustain value is 0 at
/// lifetime 0 and `AMPLITUDE_SCALE` at the attack's last tick.
pub proof fn lemma_attack_endpoints(env: Envelope, sample_rate: int)
    requires
        env.wf(),
        1000 <= sample_rate <= 1000000,
    ensures
        env.spec_ads(0, sample_rate) == 0,
        env.spec_ads(spec_stage_ticks(env.attack_ms as int, sample_rate), sample_rate)
            == AMPLITUDE_SCALE,
{
    lemma_stage_ticks_bounds(env.attack_ms as int, sample_rate);
    let attack = spec_stage_ticks(env.attack_ms as int, sample_rate);
    lemma_div_of0(attack);
    lemma_div_by_multiple(AMPLITUDE_SCALE as int, attack);
    assert(attack * (AMPLITUDE_SCALE as int) == (AMPLITUDE_SCALE as int) * attack);
}

/// Past the attack and the decay, a held note sounds at exactly the
/// sustain level.
pub proof fn lemma_sustain_level(env: Envelope, note: Note, tick: int, sample_rate: int)
    requires
        env.wf(),
        1000 <= sample_rate <= 1000000,
        note.pressed,
        tick - note.tick_pressed > spec_stage_ticks(env.attack_ms as int, sample_rate)
            + spec_stage_ticks(env.decay_ms as int, sample_rate),
    ensures
        env.spec_amplitude(note, tick, sample_rate) == env.sustain,
{
    lemma_stage_ticks_bounds(env.attack_ms as int, sample_rate);
    lemma_stage_ticks_bounds(env.decay_ms as int, sample_rate);
}

/// Deactivation and silence coincide: an evaluation that silences the
/// voice reports amplitude 0, and a released note that is not silenced
/// still sounds above the audibility floor.
pub proof fn lemma_release_silence(env: Envelope, note: Note, tick: int, sample_rate: int)
    ensures
        env.spec_deactivates(note, tick, sample_rate)
            ==> env.spec_amplitude(note, tick, sample_rate) == 0,
        !note.pressed && !env.spec_deactivates(note, tick, sample_rate)
            ==> env.spec_amplitude(note, tick, sample_rate) > LOWEST_AMPLITUDE,
{
}

/// One release stage after the release tick, a released note is silent
/// and the evaluation silences the voice.
pub proof fn lemma_release_tail_end(env: Envelope, note: Note, tick: int, sample_rate: int)
    requires
        !note.pressed,
        tick - note.tick_released >= spec_stage_ticks(env.release_ms as int, sample_rate),
    ensures
        env.spec_amplitude(note, tick, sample_rate) == 0,
        env.spec_deactivates(note, tick, sample_rate),
{
}

/// From the end of the attack on, the attack-decay-sustain value never
/// rises again.
pub proof fn lemma_ads_nonincreasing(env: Envelope, l1: int, l2: int, sample_rate: int)
    requires
        env.wf(),
        1000 <= sample_rate <= 1000000,
        spec_stage_ticks(env.attack_ms as int, sample_rate) <= l1 <= l2,
    ensures
        env.spec_ads(l2, sample_rate) <= env.spec_ads(l1, sample_rate),
{
    lemma_stage_ticks_bounds(env.attack_ms as int, sample_rate);
    lemma_stage_ticks_bounds(env.decay_ms as int, sample_rate);
    let attack = spec_stage_ticks(env.attack_ms as int, sample_rate);
    let decay = spec_stage_ticks(env.decay_ms as int, sample_rate);
    lemma_ads_bounds(env, l1, sample_rate);
    lemma_ads_bounds(env, l2, sample_rate);
    if l1 <= attack {
        lemma_div_by_multiple(AMPLITUDE_SCALE as int, attack);
        assert(attack * (AMPLITUDE_SCALE as int) == (AMPLITUDE_SCALE as int) * attack);
    } else if l1 <= attack + decay {
        if l2 <= attack + decay {
            lemma_mul_inequality(l1 - attack, l2 - attack, AMPLITUDE_SCALE - env.sustain);
            lemma_div_is_ordered(
                (l1 - attack) * (AMPLITUDE_SCALE - env.sustain),
                (l2 - attack) * (AMPLITUDE_SCALE - env.sustain),
                decay);
        } else {
            lemma_mul_inequality(l1 - attack, decay, AMPLITUDE_SCALE - env.sustain);
            lemma_multiply_divide_le(
                (l1 - attack) * (AMPLITUDE_SCALE - env.sustain),
                decay,
                AMPLITUDE_SCALE - env.sustain);
        }
    }
}

/// Once a note released at or past the end of its attack, its
/// amplitude never rises again: the release tail decays monotonically
/// to silence.
pub proof fn lemma_release_monotone(env: Envelope, note: Note, t1: int, t2: int, sample_rate: int)
    requires
        env.wf(),
        1000 <= sample_rate <= 1000000,
        !note.pressed,
        note.tick_pressed <= note.tick_released,
        note.tick_released <= t1 <= t2,
        spec_stage_ticks(env.attack_ms as int, sample_rate) <= t1 - note.tick_pressed,
    ensures
        env.spec_amplitude(note, t2, sample_rate) <= env.spec_amplitude(note, t1, sample_rate),
        0 <= env.spec_amplitude(note, t2, sample_rate),
{
    lemma_stage_ticks_bounds(env.release_ms as int, sample_rate);
    let release = spec_stage_ticks(env.release_ms as int, sample_rate);
    let d1 = t1 - note.tick_released;
    let d2 = t2 - note.tick_released;
    let ads1 = env.spec_ads(t1 - note.tick_pressed, sample_rate);
    let ads2 = env.spec_ads(t2 - note.tick_pressed, sample_rate);
    lemma_ads_nonincreasing(env, t1 - note.tick_pressed, t2 - note.tick_pressed, sample_rate);
    lemma_ads_bounds(env, t1 - note.tick_pressed, sample_rate);
    lemma_ads_bounds(env, t2 - note.tick_pressed, sample_rate);
    if d1 < release {
        lemma_div_pos_is_pos((release - d1) * ads1, release);
        if d2 < release {
            lemma_mul_upper_bound(release - d2, release - d1, ads2, ads1);
            lemma_div_is_ordered((release - d2) * ads2, (release - d1) * ads1, release);
            lemma_div_pos_is_pos((release - d2) * ads2, release);
        }
    }
}

} // verus!
