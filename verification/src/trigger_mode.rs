//! The trigger-mode policy: how a freshly played note resets the timing
//! baseline of the repetition loop.

use vstd::prelude::*;

verus! {

/// What a note-on does to the emission timing baseline.
#[derive(Clone, Copy, PartialEq, Eq, Structural, Debug)]
pub enum TriggerMode {
    /// Notes leave the repetition loop's timing untouched.
    Continue,
    /// A note re-triggers the loop: the very next opportunity is due.
    ReTrigger,
    /// A note re-triggers the loop with an initial delay of one full period.
    ReTriggerDelayed,
}

/// The timing baseline after a note-on under the given mode: `ReTrigger`
/// rewinds it to the earliest representable instant so that an emission is
/// due at the next opportunity, `ReTriggerDelayed` moves it to the note's own
/// arrival time so that a full period of silence precedes the next emission,
/// and `Continue` leaves it alone.
pub open spec fn retriggered_timestamp(mode: TriggerMode, last: u64, now: u64) -> u64 {
    match mode {
        TriggerMode::Continue => last,
        TriggerMode::ReTrigger => 0u64,
        TriggerMode::ReTriggerDelayed => now,
    }
}

impl TriggerMode {
    /// A short explanation of the mode for display purposes.
    pub fn description(&self) -> (r: &'static str)
        ensures
            r@ == self.description_spec(),
    {
        match self {
            TriggerMode::Continue => "MIDI notes have no effect on the repetition loop",
            TriggerMode::ReTrigger => "MIDI notes re-trigger the repetition loop",
            TriggerMode::ReTriggerDelayed => {
                "MIDI notes re-trigger the repetition loop with an initial delay ( = frequency)"
            },
        }
    }

    pub open spec fn description_spec(self) -> Seq<char> {
        match self {
            TriggerMode::Continue => "MIDI notes have no effect on the repetition loop"@,
            TriggerMode::ReTrigger => "MIDI notes re-trigger the repetition loop"@,
            TriggerMode::ReTriggerDelayed => {
                "MIDI notes re-trigger the repetition loop with an initial delay ( = frequency)"@
            },
        }
    }

    /// The display label of the mode.
    pub fn name(&self) -> (r: &'static str)
        ensures
            r@ == self.name_spec(),
    {
        match self {
            TriggerMode::Continue => "Continue",
            TriggerMode::ReTrigger => "Re-trigger",
            TriggerMode::ReTriggerDelayed => "Re-trigger delayed",
        }
    }

    pub open spec fn name_spec(self) -> Seq<char> {
        match self {
            TriggerMode::Continue => "Continue"@,
            TriggerMode::ReTrigger => "Re-trigger"@,
            TriggerMode::ReTriggerDelayed => "Re-trigger delayed"@,
        }
    }

    /// The next mode in the fixed rotation, wrapping back to the first;
    /// a total successor operation in place of an integer-backed cast.
    pub fn successor(&self) -> (r: TriggerMode)
        ensures
            r == self.successor_spec(),
    {
        match self {
            TriggerMode::Continue => TriggerMode::ReTrigger,
            TriggerMode::ReTrigger => TriggerMode::ReTriggerDelayed,
            TriggerMode::ReTriggerDelayed => TriggerMode::Continue,
        }
    }

    pub open spec fn successor_spec(self) -> TriggerMode {
        match self {
            TriggerMode::Continue => TriggerMode::ReTrigger,
            TriggerMode::ReTrigger => TriggerMode::ReTriggerDelayed,
            TriggerMode::ReTriggerDelayed => TriggerMode::Continue,
        }
    }
}

} // verus!
