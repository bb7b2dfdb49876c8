//! Synthesizer state and the render loop.
//!
//! `AudioModel` owns the per-stream state: the shared tick, the
//! reference frequency, the master volume, the 128-entry note table and
//! the envelope.  Note-on/note-off events are applied through
//! `update`, and `render_buffer` mixes the active voices into output
//! samples, one per frame.

use vstd::prelude::*;
use vstd::arithmetic::div_mod::{lemma_div_pos_is_pos, lemma_multiply_divide_le};
use vstd::arithmetic::mul::lemma_mul_upper_bound;
use crate::envelope::Envelope;
use crate::frequency::{frequency, spec_frequency, MAX_A4_FREQUENCY, MAX_FREQUENCY,
    STANDARD_A4_FREQUENCY};
use crate::math::{spec_triangle, triangle};
use crate::note::Note;
use crate::{AMPLITUDE_SCALE, PHASE_SCALE, valid_sample_rate};

verus! {

/// Size of the note table: one entry per representable note number.
pub const NUMBER_OF_MIDI_NOTES: usize = 128;

/// Default master volume, in fixed-point amplitude units (0.1).
pub const DEFAULT_VOLUME: u64 = 100000;

/// Status byte of a note-on event.
pub const MIDI_ON_VALUE: u8 = 144;

/// Status byte of a note-off event.
pub const MIDI_OFF_VALUE: u8 = 128;

/// An error of the synthesizer core.
#[derive(Clone, Copy, PartialEq, Eq, Structural, Debug)]
pub enum SynthError {
    /// A note index outside the note table was passed to a note
    /// operation.
    InvalidNoteIndex,
}

/// One queued note event: a status byte, a note index and a velocity.
/// The velocity is carried but does not influence the synthesis.
#[derive(Clone, Copy, PartialEq, Eq, Structural, Debug)]
pub struct NoteEvent {
    pub status: u8,
    pub note_index: u8,
    pub velocity: u8,
}

/// Per-stream synthesizer state.
pub struct AudioModel {
    pub tick: u64,
    pub a4_frequency: u64,
    pub volume: u64,
    pub notes: Vec<Note>,
    pub envelope: Envelope,
}

/// The note table after one event: note-on presses the addressed note
/// at the current tick, note-off releases it, any other status byte and
/// any index outside the table leave the table unchanged.
pub open spec fn spec_apply_event(notes: Seq<Note>, tick: u64, event: NoteEvent) -> Seq<Note> {
    if event.status == MIDI_ON_VALUE && (event.note_index as int) < notes.len() {
        notes.update(event.note_index as int, notes[event.note_index as int].spec_press(tick))
    } else if event.status == MIDI_OFF_VALUE && (event.note_index as int) < notes.len() {
        notes.update(event.note_index as int, notes[event.note_index as int].spec_release(tick))
    } else {
        notes
    }
}

/// The note table after a queue of events, applied in order.
pub open spec fn spec_apply_events(notes: Seq<Note>, tick: u64, events: Seq<NoteEvent>) -> Seq<Note>
    decreases events.len(),
{
    if events.len() == 0 {
        notes
    } else {
        spec_apply_events(spec_apply_event(notes, tick, events[0]), tick, events.drop_first())
    }
}

/// Applying a queue and then one more event is applying the queue with
/// the event appended.
pub proof fn lemma_apply_events_push(
    notes: Seq<Note>,
    tick: u64,
    events: Seq<NoteEvent>,
    event: NoteEvent,
)
    ensures
        spec_apply_events(notes, tick, events.push(event))
            == spec_apply_event(spec_apply_events(notes, tick, events), tick, event),
    decreases events.len(),
{
    if events.len() == 0 {
        assert(events.push(event).drop_first() =~= Seq::<NoteEvent>::empty());
        assert(events.push(event)[0] == event);
        assert(spec_apply_events(spec_apply_event(notes, tick, event), tick, Seq::empty())
            == spec_apply_event(notes, tick, event));
        assert(spec_apply_events(notes, tick, events) == notes);
    } else {
        assert(events.push(event).drop_first() =~= events.drop_first().push(event));
        assert(events.push(event)[0] == events[0]);
        lemma_apply_events_push(
            spec_apply_event(notes, tick, events[0]),
            tick,
            events.drop_first(),
            event,
        );
    }
}

impl AudioModel {
    /// The note table is full-sized, the configuration is in range, and
    /// no note records a tick later than the current one.
    pub open spec fn wf(self) -> bool {
        &&& self.notes@.len() == NUMBER_OF_MIDI_NOTES
        &&& self.envelope.wf()
        &&& self.volume <= AMPLITUDE_SCALE
        &&& 1 <= self.a4_frequency <= MAX_A4_FREQUENCY
        &&& forall|i: int| 0 <= i < self.notes@.len()
            ==> (#[trigger] self.notes@[i]).tick_pressed <= self.tick
                && self.notes@[i].tick_released <= self.tick
    }

    /// A fresh synthesizer: tick zero, standard concert pitch, default
    /// volume, default envelope, every note silent.
    pub fn new() -> (model: AudioModel)
        ensures
            model.wf(),
            model.tick == 0,
            model.a4_frequency == STANDARD_A4_FREQUENCY,
            model.volume == DEFAULT_VOLUME,
            model.envelope == (Envelope {
                attack_ms: crate::envelope::DEFAULT_ATTACK_MS,
                decay_ms: crate::envelope::DEFAULT_DECAY_MS,
                sustain: crate::envelope::DEFAULT_SUSTAIN,
                release_ms: crate::envelope::DEFAULT_RELEASE_MS,
            }),
            forall|i: int| 0 <= i < model.notes@.len()
                ==> !(#[trigger] model.notes@[i]).pressed && !model.notes@[i].active,
    {
        let mut notes: Vec<Note> = Vec::new();
        let mut i: usize = 0;
        while i < NUMBER_OF_MIDI_NOTES
            invariant
                i <= NUMBER_OF_MIDI_NOTES,
                notes@.len() == i,
                forall|j: int| 0 <= j < i ==> (#[trigger] notes@[j]) == (Note {
                    pressed: false,
                    active: false,
                    tick_pressed: 0,
                    tick_released: 0,
                }),
            decreases NUMBER_OF_MIDI_NOTES - i,
        {
            notes.push(Note::new());
            i += 1;
        }
        AudioModel {
            tick: 0,
            a4_frequency: STANDARD_A4_FREQUENCY,
            volume: DEFAULT_VOLUME,
            notes,
            envelope: Envelope::new(),
        }
    }

    /// Rejects note indices outside the note table.
    fn check_note_index(index: usize) -> (result: Result<(), SynthError>)
        ensures
            index < NUMBER_OF_MIDI_NOTES ==> result == Ok::<(), SynthError>(()),
            index >= NUMBER_OF_MIDI_NOTES ==> result == Err::<(), SynthError>(
                SynthError::InvalidNoteIndex,
            ),
    {
        if index >= NUMBER_OF_MIDI_NOTES {
            return Err(SynthError::InvalidNoteIndex);
        }
        Ok(())
    }

    /// Presses the note at `index` at the current tick.  An index
    /// outside the note table is rejected and the note table is left
    /// unchanged.
    pub fn press_note(&mut self, index: usize) -> (result: Result<(), SynthError>)
        requires
            old(self).wf(),
        ensures
            final(self).wf(),
            index < NUMBER_OF_MIDI_NOTES ==> result == Ok::<(), SynthError>(())
                && final(self).notes@ == old(self).notes@.update(
                    index as int,
                    old(self).notes@[index as int].spec_press(old(self).tick),
                ),
            index >= NUMBER_OF_MIDI_NOTES ==> result == Err::<(), SynthError>(
                SynthError::InvalidNoteIndex,
            ) && final(self).notes@ == old(self).notes@,
            final(self).tick == old(self).tick,
            final(self).a4_frequency == old(self).a4_frequency,
            final(self).volume == old(self).volume,
            final(self).envelope == old(self).envelope,
    {
        AudioModel::check_note_index(index)?;
        let tick = self.tick;
        let mut note = self.notes[index];
        note.press(tick);
        self.notes.set(index, note);
        Ok(())
    }

    /// Releases the note at `index` at the current tick; the note keeps
    /// sounding through its release tail.  An index outside the note
    /// table is rejected and the note table is left unchanged.
    pub fn release_note(&mut self, index: usize) -> (result: Result<(), SynthError>)
        requires
            old(self).wf(),
        ensures
            final(self).wf(),
            index < NUMBER_OF_MIDI_NOTES ==> result == Ok::<(), SynthError>(())
                && final(self).notes@ == old(self).notes@.update(
                    index as int,
                    old(self).notes@[index as int].spec_release(old(self).tick),
                ),
            index >= NUMBER_OF_MIDI_NOTES ==> result == Err::<(), SynthError>(
                SynthError::InvalidNoteIndex,
            ) && final(self).notes@ == old(self).notes@,
            final(self).tick == old(self).tick,
            final(self).a4_frequency == old(self).a4_frequency,
            final(self).volume == old(self).volume,
            final(self).envelope == old(self).envelope,
    {
        AudioModel::check_note_index(index)?;
        let tick = self.tick;
        let mut note = self.notes[index];
        note.release(tick);
        self.notes.set(index, note);
        Ok(())
    }

    /// Silences the note at `index` at once.  An index outside the note
    /// table is rejected and the note table is left unchanged.
    pub fn deactivate_note(&mut self, index: usize) -> (result: Result<(), SynthError>)
        requires
            old(self).wf(),
        ensures
            final(self).wf(),
            index < NUMBER_OF_MIDI_NOTES ==> result == Ok::<(), SynthError>(())
                && final(self).notes@ == old(self).notes@.update(
                    index as int,
                    old(self).notes@[index as int].spec_deactivate(),
                ),
            index >= NUMBER_OF_MIDI_NOTES ==> result == Err::<(), SynthError>(
                SynthError::InvalidNoteIndex,
            ) && final(self).notes@ == old(self).notes@,
            final(self).tick == old(self).tick,
            final(self).a4_frequency == old(self).a4_frequency,
            final(self).volume == old(self).volume,
            final(self).envelope == old(self).envelope,
    {
        AudioModel::check_note_index(index)?;
        let mut note = self.notes[index];
        note.deactivate();
        self.notes.set(index, note);
        Ok(())
    }

    /// Applies a drained queue of note events to the note table, in
    /// send order.  Note-on presses, note-off releases, anything else
    /// is ignored; an event whose index lies outside the note table is
    /// skipped without stopping the drain.
    pub fn update(&mut self, events: &Vec<NoteEvent>)
        requires
            old(self).wf(),
        ensures
            final(self).wf(),
            final(self).notes@ == spec_apply_events(old(self).notes@, old(self).tick, events@),
            final(self).tick == old(self).tick,
            final(self).a4_frequency == old(self).a4_frequency,
            final(self).volume == old(self).volume,
            final(self).envelope == old(self).envelope,
    {
        let ghost orig_notes = self.notes@;
        let ghost tick = self.tick;
        let mut i: usize = 0;
        while i < events.len()
            invariant
                old(self).wf(),
                self.wf(),
                i <= events.len(),
                self.notes@ == spec_apply_events(orig_notes, tick, events@.take(i as int)),
                self.tick == old(self).tick,
                tick == old(self).tick,
                orig_notes == old(self).notes@,
                self.a4_frequency == old(self).a4_frequency,
                self.volume == old(self).volume,
                self.envelope == old(self).envelope,
            decreases events@.len() - i,
        {
            let event = events[i];
            if event.status == MIDI_ON_VALUE {
                let _ = self.press_note(event.note_index as usize);
            } else if event.status == MIDI_OFF_VALUE {
                let _ = self.release_note(event.note_index as usize);
            }
            proof {
                assert(events@.take(i as int + 1)
                    =~= events@.take(i as int).push(events@[i as int]));
                lemma_apply_events_push(orig_notes, tick, events@.take(i as int), events@[i as int]);
            }
            i += 1;
        }
        proof {
            assert(events@.take(events@.len() as int) =~= events@);
        }
    }
}

/// The oscillator phase at `tick` for a voice of `freq` millihertz:
/// `tick / sample_rate` seconds times the frequency gives the cycle
/// count, scaled to phase units and reduced modulo two cycles (the
/// period of the sawtooth, a multiple of every other oscillator's
/// period).
pub open spec fn spec_phase(tick: int, freq: int, sample_rate: int) -> int {
    (tick * freq * (PHASE_SCALE as int) / (sample_rate * 1000)) % (2 * (PHASE_SCALE as int))
}

/// Computes the oscillator phase at `tick` for a voice of `freq`
/// millihertz.
pub fn phase_units(tick: u64, freq: u64, sample_rate: u64) -> (phase: u64)
    requires
        freq <= MAX_FREQUENCY,
        valid_sample_rate(sample_rate),
    ensures
        phase == spec_phase(tick as int, freq as int, sample_rate as int),
        phase < 2 * PHASE_SCALE,
{
    proof {
        lemma_mul_upper_bound(tick as int, 0xffffffffffffffff, freq as int, MAX_FREQUENCY as int);
        lemma_mul_upper_bound(
            tick as int * freq as int,
            0xffffffffffffffff * (MAX_FREQUENCY as int),
            PHASE_SCALE as int,
            PHASE_SCALE as int,
        );
    }
    let numerator = (tick as u128) * (freq as u128) * (PHASE_SCALE as u128);
    let denominator = (sample_rate as u128) * 1000;
    let phase = (numerator / denominator) % (2 * (PHASE_SCALE as u128));
    phase as u64
}

/// The contribution of one voice to a frame: the oscillator value
/// scaled by the envelope amplitude and the master volume, both
/// fractions of `AMPLITUDE_SCALE`.
pub open spec fn spec_contribution(oscillator: int, envelope_amplitude: int, volume: int) -> int {
    let scale = (AMPLITUDE_SCALE * AMPLITUDE_SCALE) as int;
    if oscillator >= 0 {
        oscillator * envelope_amplitude * volume / scale
    } else {
        -((-oscillator) * envelope_amplitude * volume / scale)
    }
}

/// What one note adds to the mixed amplitude of the frame at `tick`:
/// nothing while the note is inactive, else its triangle oscillator at
/// the note's frequency, scaled by the envelope and the master volume.
pub open spec fn spec_note_output(
    env: Envelope,
    note: Note,
    index: int,
    tick: int,
    a4_frequency: int,
    volume: int,
    sample_rate: int,
) -> int {
    if note.active {
        spec_contribution(
            spec_triangle(spec_phase(tick, spec_frequency(a4_frequency, index), sample_rate)),
            env.spec_amplitude(note, tick, sample_rate),
            volume,
        )
    } else {
        0
    }
}

/// The mixed amplitude of the frame at `tick`: the sum of the outputs
/// of the notes below `count`.
pub open spec fn spec_mix(
    env: Envelope,
    notes: Seq<Note>,
    count: int,
    tick: int,
    a4_frequency: int,
    volume: int,
    sample_rate: int,
) -> int
    decreases count,
{
    if count <= 0 {
        0
    } else {
        spec_mix(env, notes, count - 1, tick, a4_frequency, volume, sample_rate)
            + spec_note_output(
                env, notes[count - 1], count - 1, tick, a4_frequency, volume, sample_rate)
    }
}

/// A note as evaluating one frame at `tick` leaves it: silenced if it
/// was active and its release tail has become inaudible, else
/// untouched.
pub open spec fn spec_note_after(env: Envelope, note: Note, tick: int, sample_rate: int) -> Note {
    if note.active && env.spec_deactivates(note, tick, sample_rate) {
        note.spec_deactivate()
    } else {
        note
    }
}

/// The note table as rendering one frame at `tick` leaves it.
pub open spec fn spec_notes_after(
    env: Envelope,
    notes: Seq<Note>,
    tick: int,
    sample_rate: int,
) -> Seq<Note> {
    Seq::new(notes.len(), |j: int| spec_note_after(env, notes[j], tick, sample_rate))
}

/// A running mix of `index` voices, each within one fixed-point unit of
/// zero, stays within one more unit after one more voice is added.
proof fn lemma_sum_step_bound(index: int, amplitude: int, value: int)
    requires
        0 <= index,
        -(index * 1000000) <= amplitude <= index * 1000000,
        -1000000 <= value <= 1000000,
    ensures
        -((index + 1) * 1000000) <= amplitude + value <= (index + 1) * 1000000,
{
    assert((index + 1) * 1000000 == index * 1000000 + 1000000) by (nonlinear_arith);
}

/// Scales an oscillator value by the envelope amplitude and the master
/// volume.
fn contribution(oscillator: i64, envelope_amplitude: u64, volume: u64) -> (value: i64)
    requires
        -(AMPLITUDE_SCALE as i64) <= oscillator <= AMPLITUDE_SCALE as i64,
        envelope_amplitude <= AMPLITUDE_SCALE,
        volume <= AMPLITUDE_SCALE,
    ensures
        value == spec_contribution(oscillator as int, envelope_amplitude as int, volume as int),
        -1000000 <= value <= 1000000,
{
    if oscillator >= 0 {
        let magnitude = oscillator as u64;
        proof {
            lemma_mul_upper_bound(
                magnitude as int, AMPLITUDE_SCALE as int,
                envelope_amplitude as int, AMPLITUDE_SCALE as int);
            lemma_mul_upper_bound(
                magnitude as int * envelope_amplitude as int,
                (AMPLITUDE_SCALE * AMPLITUDE_SCALE) as int,
                volume as int, AMPLITUDE_SCALE as int);
            lemma_multiply_divide_le(
                magnitude as int * envelope_amplitude as int * volume as int,
                (AMPLITUDE_SCALE * AMPLITUDE_SCALE) as int,
                AMPLITUDE_SCALE as int);
            lemma_div_pos_is_pos(
                magnitude as int * envelope_amplitude as int * volume as int,
                (AMPLITUDE_SCALE * AMPLITUDE_SCALE) as int);
        }
        let scaled = magnitude * envelope_amplitude * volume
            / (AMPLITUDE_SCALE * AMPLITUDE_SCALE);
        scaled as i64
    } else {
        let magnitude = (-oscillator) as u64;
        proof {
            lemma_mul_upper_bound(
                magnitude as int, AMPLITUDE_SCALE as int,
                envelope_amplitude as int, AMPLITUDE_SCALE as int);
            lemma_mul_upper_bound(
                magnitude as int * envelope_amplitude as int,
                (AMPLITUDE_SCALE * AMPLITUDE_SCALE) as int,
                volume as int, AMPLITUDE_SCALE as int);
            lemma_multiply_divide_le(
                magnitude as int * envelope_amplitude as int * volume as int,
                (AMPLITUDE_SCALE * AMPLITUDE_SCALE) as int,
                AMPLITUDE_SCALE as int);
            lemma_div_pos_is_pos(
                magnitude as int * envelope_amplitude as int * volume as int,
                (AMPLITUDE_SCALE * AMPLITUDE_SCALE) as int);
        }
        let scaled = magnitude * envelope_amplitude * volume
            / (AMPLITUDE_SCALE * AMPLITUDE_SCALE);
        -(scaled as i64)
    }
}

/// The note table after rendering `frames` frames, the first at `tick`.
pub open spec fn spec_notes_after_frames(
    env: Envelope,
    notes: Seq<Note>,
    tick: int,
    sample_rate: int,
    frames: nat,
) -> Seq<Note>
    decreases frames,
{
    if frames == 0 {
        notes
    } else {
        spec_notes_after_frames(
            env,
            spec_notes_after(env, notes, tick, sample_rate),
            tick + 1,
            sample_rate,
            (frames - 1) as nat,
        )
    }
}

/// Evolving the note table one frame past `frames` frames is one
/// evaluation of the table the first `frames` frames left.
pub proof fn lemma_notes_after_frames_step(
    env: Envelope,
    notes: Seq<Note>,
    tick: int,
    sample_rate: int,
    frames: nat,
)
    ensures
        spec_notes_after_frames(env, notes, tick, sample_rate, frames + 1)
            == spec_notes_after(
                env,
                spec_notes_after_frames(env, notes, tick, sample_rate, frames),
                tick + frames,
                sample_rate,
            ),
    decreases frames,
{
    let stepped = spec_notes_after(env, notes, tick, sample_rate);
    assert(spec_notes_after_frames(env, notes, tick, sample_rate, frames + 1)
        == spec_notes_after_frames(env, stepped, tick + 1, sample_rate, frames));
    if frames == 0 {
        assert(spec_notes_after_frames(env, stepped, tick + 1, sample_rate, 0) == stepped);
        assert(spec_notes_after_frames(env, notes, tick, sample_rate, 0) == notes);
    } else {
        lemma_notes_after_frames_step(env, stepped, tick + 1, sample_rate, (frames - 1) as nat);
        assert(spec_notes_after_frames(env, notes, tick, sample_rate, frames)
            == spec_notes_after_frames(env, stepped, tick + 1, sample_rate, (frames - 1) as nat));
    }
}

/// The sample of frame `frame` when rendering starts from `notes` at
/// `tick`: the mix of the note table as the earlier frames have left
/// it, at the tick of that frame.
pub open spec fn spec_frame_output(
    env: Envelope,
    notes: Seq<Note>,
    tick: int,
    a4_frequency: int,
    volume: int,
    sample_rate: int,
    frame: nat,
) -> int {
    spec_mix(
        env,
        spec_notes_after_frames(env, notes, tick, sample_rate, frame),
        NUMBER_OF_MIDI_NOTES as int,
        tick + frame,
        a4_frequency,
        volume,
        sample_rate,
    )
}

impl AudioModel {
    /// Renders one frame: sums the contribution of every active note at
    /// the current tick, silences the voices whose release tails have
    /// become inaudible, and advances the tick.
    pub fn render_frame(&mut self, sample_rate: u64) -> (amplitude: i64)
        requires
            old(self).wf(),
            valid_sample_rate(sample_rate),
            old(self).tick < u64::MAX,
        ensures
            final(self).wf(),
            amplitude == spec_mix(
                old(self).envelope,
                old(self).notes@,
                NUMBER_OF_MIDI_NOTES as int,
                old(self).tick as int,
                old(self).a4_frequency as int,
                old(self).volume as int,
                sample_rate as int,
            ),
            -128000000 <= amplitude <= 128000000,
            final(self).notes@ == spec_notes_after(
                old(self).envelope,
                old(self).notes@,
                old(self).tick as int,
                sample_rate as int,
            ),
            final(self).tick == old(self).tick + 1,
            final(self).a4_frequency == old(self).a4_frequency,
            final(self).volume == old(self).volume,
            final(self).envelope == old(self).envelope,
    {
        let ghost orig = *self;
        let mut amplitude: i64 = 0;
        let mut index: usize = 0;
        while index < NUMBER_OF_MIDI_NOTES
            invariant
                self.wf(),
                valid_sample_rate(sample_rate),
                index <= NUMBER_OF_MIDI_NOTES,
                self.tick == orig.tick,
                self.tick < u64::MAX,
                self.a4_frequency == orig.a4_frequency,
                self.volume == orig.volume,
                self.envelope == orig.envelope,
                orig.wf(),
                self.notes@.len() == orig.notes@.len(),
                forall|j: int| 0 <= j < index ==> self.notes@[j] == spec_note_after(
                    orig.envelope, orig.notes@[j], orig.tick as int, sample_rate as int),
                forall|j: int| index <= j < self.notes@.len()
                    ==> self.notes@[j] == orig.notes@[j],
                amplitude == spec_mix(
                    orig.envelope,
                    orig.notes@,
                    index as int,
                    orig.tick as int,
                    orig.a4_frequency as int,
                    orig.volume as int,
                    sample_rate as int,
                ),
                -(index as int) * 1000000 <= amplitude as int <= (index as int) * 1000000,
            decreases NUMBER_OF_MIDI_NOTES - index,
        {
            let mut note = self.notes[index];
            if note.get_active() {
                let freq = frequency(self.a4_frequency, index);
                let phase = phase_units(self.tick, freq, sample_rate);
                let oscillator = triangle(phase);
                let envelope = self.envelope;
                let envelope_amplitude = envelope.get_amplitude_of_note(
                    &mut note, self.tick, sample_rate);
                self.notes.set(index, note);
                let value = contribution(oscillator, envelope_amplitude, self.volume);
                proof {
                    lemma_sum_step_bound(index as int, amplitude as int, value as int);
                }
                amplitude += value;
            } else {
                self.notes.set(index, note);
            }
            index += 1;
        }
        self.tick += 1;
        proof {
            assert(self.notes@ =~= spec_notes_after(
                orig.envelope, orig.notes@, orig.tick as int, sample_rate as int));
        }
        amplitude
    }

    /// Renders a buffer of `frames` frames in order, advancing the tick
    /// once per frame.  Sample `k` is the mix of the voices still
    /// active `k` frames in.
    pub fn render_buffer(&mut self, frames: usize, sample_rate: u64) -> (samples: Vec<i64>)
        requires
            old(self).wf(),
            valid_sample_rate(sample_rate),
            old(self).tick + frames <= u64::MAX,
        ensures
            final(self).wf(),
            samples@.len() == frames,
            forall|k: int| 0 <= k < frames ==> samples@[k] as int == spec_frame_output(
                old(self).envelope,
                old(self).notes@,
                old(self).tick as int,
                old(self).a4_frequency as int,
                old(self).volume as int,
                sample_rate as int,
                k as nat,
            ),
            final(self).notes@ == spec_notes_after_frames(
                old(self).envelope,
                old(self).notes@,
                old(self).tick as int,
                sample_rate as int,
                frames as nat,
            ),
            final(self).tick == old(self).tick + frames,
            final(self).a4_frequency == old(self).a4_frequency,
            final(self).volume == old(self).volume,
            final(self).envelope == old(self).envelope,
    {
        let ghost orig = *self;
        let mut samples: Vec<i64> = Vec::new();
        let mut frame: usize = 0;
        while frame < frames
            invariant
                self.wf(),
                valid_sample_rate(sample_rate),
                frame <= frames,
                orig.tick + frames <= u64::MAX,
                self.tick == orig.tick + frame,
                self.a4_frequency == orig.a4_frequency,
                self.volume == orig.volume,
                self.envelope == orig.envelope,
                self.notes@ == spec_notes_after_frames(
                    orig.envelope, orig.notes@, orig.tick as int, sample_rate as int,
                    frame as nat),
                samples@.len() == frame,
                forall|k: int| 0 <= k < frame ==> samples@[k] as int == spec_frame_output(
                    orig.envelope, orig.notes@, orig.tick as int, orig.a4_frequency as int,
                    orig.volume as int, sample_rate as int, k as nat),
            decreases frames - frame,
        {
            let amplitude = self.render_frame(sample_rate);
            samples.push(amplitude);
            proof {
                lemma_notes_after_frames_step(
                    orig.envelope, orig.notes@, orig.tick as int, sample_rate as int,
                    frame as nat);
            }
            frame += 1;
        }
        samples
    }
}

} // verus!
