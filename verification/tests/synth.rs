use polysynth::audio_engine::{AudioModel, NoteEvent, SynthError};
use polysynth::envelope::Envelope;
use polysynth::frequency::frequency;
use polysynth::keyboard::{parse_key_as_note_input, Key};
use polysynth::math::{sawtooth, square, triangle};
use polysynth::note::Note;

const SR: u64 = 44100;

#[test]
fn press_marks_note_pressed_and_active() {
    let mut model = AudioModel::new();
    for index in [0usize, 1, 47, 69, 127] {
        assert_eq!(model.press_note(index), Ok(()));
        assert!(model.notes[index].get_pressed());
        assert!(model.notes[index].get_active());
    }
}

#[test]
fn repress_keeps_tick_pressed() {
    let mut model = AudioModel::new();
    assert_eq!(model.press_note(69), Ok(()));
    assert_eq!(model.notes[69].get_tick_pressed(), 0);
    // Let time pass, then press again while the key is still down.
    let _ = model.render_buffer(1000, SR);
    assert_eq!(model.tick, 1000);
    assert_eq!(model.press_note(69), Ok(()));
    assert_eq!(model.notes[69].get_tick_pressed(), 0);
    assert!(model.notes[69].get_pressed());
}

#[test]
fn release_keeps_note_active() {
    let mut model = AudioModel::new();
    assert_eq!(model.press_note(60), Ok(()));
    let _ = model.render_buffer(10, SR);
    assert_eq!(model.release_note(60), Ok(()));
    assert!(!model.notes[60].get_pressed());
    assert!(model.notes[60].get_active());
    assert_eq!(model.notes[60].get_tick_released(), 10);
}

#[test]
fn out_of_range_press_is_rejected_and_changes_nothing() {
    let mut model = AudioModel::new();
    let before: Vec<Note> = model.notes.clone();
    assert_eq!(model.press_note(128), Err(SynthError::InvalidNoteIndex));
    assert_eq!(model.press_note(5000), Err(SynthError::InvalidNoteIndex));
    assert_eq!(model.release_note(128), Err(SynthError::InvalidNoteIndex));
    assert_eq!(model.deactivate_note(128), Err(SynthError::InvalidNoteIndex));
    assert_eq!(model.notes, before);
    assert_eq!(model.tick, 0);
}

#[test]
fn envelope_is_zero_at_press_and_full_at_attack_end() {
    let envelope = Envelope::new();
    let mut note = Note::new();
    note.press(0);
    // Default attack is 0.8 s: 35280 ticks at 44100 Hz.
    assert_eq!(envelope.get_amplitude_of_note(&mut note, 0, SR), 0);
    assert_eq!(envelope.get_amplitude_of_note(&mut note, 35280, SR), 1000000);
    // Halfway through the decay the default envelope has fallen to 0.5.
    assert_eq!(envelope.get_amplitude_of_note(&mut note, 35280 + 110250, SR), 500000);
}

#[test]
fn sustain_level_is_exact_while_held() {
    let envelope = Envelope { attack_ms: 100, decay_ms: 100, sustain: 500000, release_ms: 200 };
    let mut note = Note::new();
    note.press(0);
    // Far past attack + decay, still pressed: exactly the sustain level.
    assert_eq!(envelope.get_amplitude_of_note(&mut note, 100000, SR), 500000);
    assert_eq!(envelope.get_amplitude_of_note(&mut note, 2000000, SR), 500000);
    assert!(note.get_pressed());
    assert!(note.get_active());
}

#[test]
fn two_voices_mix_by_addition() {
    let mut model = AudioModel::new();
    assert_eq!(model.press_note(60), Ok(()));
    assert_eq!(model.press_note(64), Ok(()));
    let samples = model.render_buffer(12346, SR);
    // Each sample is the sum of the two voices' triangle-times-envelope
    // -times-volume contributions at that tick.
    assert_eq!(samples[1000], -476);
    assert_eq!(samples[12345], 64953);
}

#[test]
fn release_tail_decays_monotonically_to_silence() {
    let envelope = Envelope::new();
    let mut note = Note::new();
    note.press(0);
    note.release(44100);
    // Released one second in (past the attack): the tail never rises.
    assert_eq!(envelope.get_amplitude_of_note(&mut note, 44100, SR), 960000);
    let mut previous = u64::MAX;
    for offset in [0u64, 1, 1000, 5000, 8000, 8819] {
        let amplitude = envelope.get_amplitude_of_note(&mut note, 44100 + offset, SR);
        assert!(amplitude <= previous);
        assert!(amplitude > 100);
        assert!(note.get_active());
        previous = amplitude;
    }
    // Default release is 0.2 s = 8820 ticks: silent at the end of it.
    assert_eq!(envelope.get_amplitude_of_note(&mut note, 44100 + 8820, SR), 0);
    assert!(!note.get_active());
}

#[test]
fn released_note_goes_inactive_within_release_time() {
    let mut model = AudioModel::new();
    assert_eq!(model.press_note(69), Ok(()));
    let _ = model.render_buffer(44100, SR);
    assert_eq!(model.release_note(69), Ok(()));
    // 8820 ticks of release tail, then one more frame to observe it.
    let _ = model.render_buffer(8821, SR);
    assert!(!model.notes[69].get_active());
    // An inactive note contributes nothing afterwards.
    let samples = model.render_buffer(4, SR);
    assert_eq!(samples, vec![0, 0, 0, 0]);
}

#[test]
fn oscillators_stay_within_unit_amplitude() {
    let phases = [
        0u64, 1, 12345, 0x40000000, 0x7fffffff, 0x80000000, 0xc0000000,
        0xffffffff, 0x100000000, 0x1ffffffff, 0x200000000, 987654321987654321,
        u64::MAX, u64::MAX - 1,
    ];
    for &phase in phases.iter() {
        for value in [triangle(phase), square(phase), sawtooth(phase)] {
            assert!(-1000000 <= value && value <= 1000000);
        }
    }
}

#[test]
fn oscillator_shapes_are_exact_at_quarter_cycles() {
    assert_eq!(triangle(0), 0);
    assert_eq!(triangle(0x40000000), 1000000);
    assert_eq!(triangle(0x80000000), 0);
    assert_eq!(triangle(0xc0000000), -1000000);
    // One full cycle later the wave repeats.
    assert_eq!(triangle(0x100000000 + 0x40000000), 1000000);
    assert_eq!(square(0), 1000000);
    assert_eq!(square(0x80000000), 1000000);
    assert_eq!(square(0x80000001), -1000000);
    assert_eq!(square(0xc0000000), -1000000);
    assert_eq!(sawtooth(0), -1000000);
    assert_eq!(sawtooth(0x100000000), 0);
    assert_eq!(sawtooth(0x180000000), 500000);
}

#[test]
fn frequency_reference_and_octave_are_exact() {
    assert_eq!(frequency(440000, 69), 440000);
    assert_eq!(frequency(440000, 81), 880000);
    assert_eq!(frequency(440000, 57), 220000);
    // One semitone above the reference: 440 Hz times 2^(1/12).
    assert_eq!(frequency(440000, 70), 466163);
    // The extremes of the note range.
    assert_eq!(frequency(440000, 0), 8175);
    assert_eq!(frequency(440000, 127), 12543840);
}

#[test]
fn events_are_applied_in_order() {
    let mut model = AudioModel::new();
    let events = vec![
        NoteEvent { status: 144, note_index: 60, velocity: 100 },
        NoteEvent { status: 144, note_index: 64, velocity: 100 },
        NoteEvent { status: 128, note_index: 60, velocity: 0 },
    ];
    model.update(&events);
    assert!(!model.notes[60].get_pressed());
    assert!(model.notes[60].get_active());
    assert!(model.notes[64].get_pressed());
    assert!(model.notes[64].get_active());
}

#[test]
fn unknown_and_out_of_range_events_are_skipped() {
    let mut model = AudioModel::new();
    let before: Vec<Note> = model.notes.clone();
    let events = vec![
        // Unrecognized status bytes are ignored.
        NoteEvent { status: 176, note_index: 60, velocity: 100 },
        NoteEvent { status: 0, note_index: 61, velocity: 100 },
        // A note index outside the table is skipped without stopping
        // the drain.
        NoteEvent { status: 144, note_index: 200, velocity: 100 },
        NoteEvent { status: 128, note_index: 129, velocity: 0 },
    ];
    model.update(&events);
    assert_eq!(model.notes, before);
    // The drain went on: a later valid event still lands.
    let more = vec![
        NoteEvent { status: 144, note_index: 255, velocity: 1 },
        NoteEvent { status: 144, note_index: 48, velocity: 1 },
    ];
    model.update(&more);
    assert!(model.notes[48].get_pressed());
}

#[test]
fn keyboard_layout_maps_two_octaves_from_c3() {
    assert_eq!(parse_key_as_note_input(Key::Z), Some(48));
    assert_eq!(parse_key_as_note_input(Key::S), Some(49));
    assert_eq!(parse_key_as_note_input(Key::M), Some(59));
    assert_eq!(parse_key_as_note_input(Key::Q), Some(60));
    assert_eq!(parse_key_as_note_input(Key::Y), Some(69));
    assert_eq!(parse_key_as_note_input(Key::I), Some(72));
    assert_eq!(parse_key_as_note_input(Key::Semicolon), None);
}

#[test]
fn silent_model_renders_silence() {
    let mut model = AudioModel::new();
    let samples = model.render_buffer(64, SR);
    assert_eq!(samples.len(), 64);
    assert!(samples.iter().all(|&s| s == 0));
    assert_eq!(model.tick, 64);
}

#[test]
fn end_to_end_attack_of_concert_a() {
    let mut model = AudioModel::new();
    assert_eq!(model.press_note(69), Ok(()));
    let samples = model.render_buffer(35281, SR);
    // At the press tick the envelope is still zero.
    assert_eq!(samples[0], 0);
    // Mid-attack samples: triangle times envelope times volume, all
    // fixed-point.
    assert_eq!(samples[100], -2);
    assert_eq!(samples[1000], -257);
    // At the end of the attack the envelope factor is exactly 1.
    let envelope = model.envelope;
    let mut note = Note::new();
    note.press(0);
    assert_eq!(envelope.get_amplitude_of_note(&mut note, 35280, SR), 1000000);
    // 0.8 s of a 440 Hz voice is 352 whole cycles, so the triangle is
    // at its zero crossing and the mixed sample is exactly
    // triangle(phase) * 1 * volume = 0.
    assert_eq!(triangle(0), 0);
    assert_eq!(samples[35280], 0);
}

#[test]
fn deactivate_note_silences_voice_at_once() {
    let mut model = AudioModel::new();
    assert_eq!(model.press_note(40), Ok(()));
    assert_eq!(model.deactivate_note(40), Ok(()));
    assert!(!model.notes[40].get_active());
    assert!(model.notes[40].get_pressed());
    let samples = model.render_buffer(8, SR);
    assert!(samples.iter().all(|&s| s == 0));
}
