//! Per-note lifecycle record.
//!
//! One `Note` exists per representable note number.  A note is
//! `pressed` while its key is held and `active` while it must still be
//! rendered; it stays active after release until the envelope decays
//! below the audibility floor.

use vstd::prelude::*;

verus! {

/// Lifecycle state of a single note.
///
/// `tick_pressed` and `tick_released` are render-loop sample counts:
/// the tick at the moment the note last went from unpressed to pressed,
/// and the tick of the last release.
#[derive(Clone, Copy, PartialEq, Eq, Structural, Debug)]
pub struct Note {
    pub pressed: bool,
    pub active: bool,
    pub tick_pressed: u64,
    pub tick_released: u64,
}

impl Note {
    /// True while the originating key is held.
    pub open spec fn spec_pressed(self) -> bool {
        self.pressed
    }

    /// True while the voice must still be rendered.
    pub open spec fn spec_active(self) -> bool {
        self.active
    }

    /// Tick of the last transition into the pressed state.
    pub open spec fn spec_tick_pressed(self) -> u64 {
        self.tick_pressed
    }

    /// Tick of the last release.
    pub open spec fn spec_tick_released(self) -> u64 {
        self.tick_released
    }

    /// The note as `press(tick)` leaves it: re-pressing an
    /// already-pressed note changes nothing, otherwise the note becomes
    /// pressed and active and records the tick.
    pub open spec fn spec_press(self, tick: u64) -> Note {
        if self.pressed {
            self
        } else {
            Note { pressed: true, active: true, tick_pressed: tick, ..self }
        }
    }

    /// The note as `release(tick)` leaves it: no longer pressed, the
    /// release tick recorded, activity untouched.
    pub open spec fn spec_release(self, tick: u64) -> Note {
        Note { pressed: false, tick_released: tick, ..self }
    }

    /// The note as `deactivate` leaves it.
    pub open spec fn spec_deactivate(self) -> Note {
        Note { active: false, ..self }
    }

    /// Pressing any note that is not in the pressed-but-silenced corner
    /// state leaves it pressed and active.
    pub proof fn lemma_press_activates(self, tick: u64)
        requires
            !self.pressed || self.active,
        ensures
            self.spec_press(tick).pressed,
            self.spec_press(tick).active,
    {
    }

    /// Re-pressing an already-pressed note changes nothing; in
    /// particular the press tick stays, so key-repeat events cannot
    /// re-trigger the envelope.
    pub proof fn lemma_press_idempotent(self, tick: u64)
        requires
            self.pressed,
        ensures
            self.spec_press(tick) == self,
            self.spec_press(tick).tick_pressed == self.tick_pressed,
    {
    }

    /// A fresh, silent note.
    pub fn new() -> (note: Note)
        ensures
            !note.spec_pressed(),
            !note.spec_active(),
            note.spec_tick_pressed() == 0,
            note.spec_tick_released() == 0,
    {
        Note { pressed: false, active: false, tick_pressed: 0, tick_released: 0 }
    }

    /// Marks the note pressed and active at `tick`.  Pressing an
    /// already-pressed note is a no-op, so key-repeat events cannot
    /// re-trigger the envelope.
    pub fn press(&mut self, tick: u64)
        ensures
            *final(self) == old(self).spec_press(tick),
            final(self).spec_pressed(),
            !old(self).spec_pressed() ==> final(self).spec_active(),
            old(self).spec_active() ==> final(self).spec_active(),
            old(self).spec_pressed() ==> final(self).spec_tick_pressed()
                == old(self).spec_tick_pressed(),
    {
        if !self.pressed {
            self.pressed = true;
            self.active = true;
            self.tick_pressed = tick;
        }
    }

    /// Marks the note released at `tick`.  The note keeps sounding
    /// (`active` is untouched) through the release tail.
    pub fn release(&mut self, tick: u64)
        ensures
            *final(self) == old(self).spec_release(tick),
            !final(self).spec_pressed(),
            final(self).spec_active() == old(self).spec_active(),
            final(self).spec_tick_released() == tick,
    {
        self.pressed = false;
        self.tick_released = tick;
    }

    /// Silences the voice; called when the release tail becomes
    /// inaudible.
    pub fn deactivate(&mut self)
        ensures
            *final(self) == old(self).spec_deactivate(),
            !final(self).spec_active(),
    {
        self.active = false;
    }

    /// Whether the originating key is held.
    pub fn get_pressed(&self) -> (pressed: bool)
        ensures
            pressed == self.spec_pressed(),
    {
        self.pressed
    }

    /// Whether the voice must still be rendered.
    pub fn get_active(&self) -> (active: bool)
        ensures
            active == self.spec_active(),
    {
        self.active
    }

    /// Tick of the last transition into the pressed state.
    pub fn get_tick_pressed(&self) -> (tick: u64)
        ensures
            tick == self.spec_tick_pressed(),
    {
        self.tick_pressed
    }

    /// Tick of the last release.
    pub fn get_tick_released(&self) -> (tick: u64)
        ensures
            tick == self.spec_tick_released(),
    {
        self.tick_released
    }
}

} // verus!
