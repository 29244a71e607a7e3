//! Note events and the modulation that derives an outgoing event from a held
//! note and a selected step.

use vstd::prelude::*;
use crate::step::Step;

verus! {

/// The largest pitch or velocity a MIDI note event may carry.
pub const MIDI_VALUE_MAX: u8 = 127;

/// A note event as exchanged with the host: a note pressed or released.
/// `timing` is the sample-accurate offset within the current processing
/// block and is carried through modulation unchanged.
#[derive(Clone, Copy, PartialEq, Eq, Structural, Debug)]
pub enum NoteEvent {
    NoteOn { note: u8, velocity: u8, channel: u8, timing: u32 },
    NoteOff { note: u8, channel: u8, timing: u32 },
}

/// What the held-note registry keeps for a sustained note: everything of its
/// most recent note-on except the note number, which is the registry key.
#[derive(Clone, Copy, PartialEq, Eq, Structural, Debug)]
pub struct HeldNote {
    pub velocity: u8,
    pub channel: u8,
    pub timing: u32,
}

/// `v` clamped into `[lo, hi]`.
pub open spec fn clamped(v: int, lo: int, hi: int) -> int {
    if v < lo {
        lo
    } else if v > hi {
        hi
    } else {
        v
    }
}

/// The event that a step derives from a note event. A note-on is transposed
/// by the step's semitone offset and lifted by its velocity offset, both
/// clamped into the 0-127 MIDI range; a note-off passes through unmodified.
///
/// The velocity offset is configured on the fractional 0.0-1.0 scale (held
/// in hundredths) but is added to the 0-127 velocity in whole units, so only
/// a full-scale offset raises the velocity, and then by one. This mirrors
/// the reference behaviour of adding the raw fractional offset to the
/// integer velocity; treating the offset as a proportional scale instead
/// would be a deliberate change of sound.
pub open spec fn modulated_spec(ev: NoteEvent, step: Step) -> NoteEvent {
    match ev {
        NoteEvent::NoteOn { note, velocity, channel, timing } => NoteEvent::NoteOn {
            note: clamped(note + step.transpose, 0, MIDI_VALUE_MAX as int) as u8,
            velocity: clamped(velocity + step.velocity_offset / 100, 0,
                MIDI_VALUE_MAX as int) as u8,
            channel,
            timing,
        },
        NoteEvent::NoteOff { .. } => ev,
    }
}

/// Combines a note event with a step: transposes and velocity-lifts a
/// note-on, clamping into the MIDI range; passes a note-off through
/// unchanged. Total for every event and every well-formed step.
pub fn modulate(ev: &NoteEvent, step: &Step) -> (r: NoteEvent)
    requires
        step.wf(),
    ensures
        r == modulated_spec(*ev, *step),
{
    match ev {
        NoteEvent::NoteOn { note, velocity, channel, timing } => {
            let transposed: i32 = *note as i32 + step.transpose;
            let new_note: u8 = if transposed < 0 {
                0
            } else if transposed > MIDI_VALUE_MAX as i32 {
                MIDI_VALUE_MAX
            } else {
                transposed as u8
            };
            let lifted: u32 = *velocity as u32 + step.velocity_offset / 100;
            let new_velocity: u8 = if lifted > MIDI_VALUE_MAX as u32 {
                MIDI_VALUE_MAX
            } else {
                lifted as u8
            };
            NoteEvent::NoteOn {
                note: new_note,
                velocity: new_velocity,
                channel: *channel,
                timing: *timing,
            }
        },
        NoteEvent::NoteOff { .. } => *ev,
    }
}

} // verus!
