//! The held-note registry: the currently sustained input notes, keyed by
//! note number. An entry is present exactly as long as a note-on has been
//! observed without a matching note-off.

use vstd::prelude::*;
use crate::note_event::HeldNote;

verus! {

/// How many note numbers the registry covers: one fixed slot per MIDI note,
/// so no opportunity ever allocates.
pub const NOTE_SLOTS: usize = 128;

/// The registry of currently held notes. Slot `n` holds the data of the most
/// recent note-on for note number `n`, or nothing while that note is not
/// sustained.
#[derive(Debug)]
pub struct HeldNoteRegistry {
    slots: Vec<Option<HeldNote>>,
}

impl View for HeldNoteRegistry {
    type V = Seq<Option<HeldNote>>;

    closed spec fn view(&self) -> Seq<Option<HeldNote>> {
        self.slots@
    }
}

impl HeldNoteRegistry {
    /// The registry's invariant: one slot per MIDI note number.
    pub open spec fn wf(self) -> bool {
        self@.len() == NOTE_SLOTS
    }

    /// Whether note number `note` is currently held.
    pub open spec fn is_held_spec(self, note: int) -> bool {
        0 <= note < self@.len() && self@[note] is Some
    }

    /// An empty registry: no note is held.
    pub fn new() -> (r: HeldNoteRegistry)
        ensures
            r.wf(),
            forall|n: int| 0 <= n < NOTE_SLOTS ==> r@[n] is None,
    {
        let mut slots: Vec<Option<HeldNote>> = Vec::new();
        let mut i: usize = 0;
        while i < NOTE_SLOTS
            invariant
                i <= NOTE_SLOTS,
                slots@.len() == i,
                forall|n: int| 0 <= n < i ==> slots@[n] is None,
            decreases NOTE_SLOTS - i,
        {
            slots.push(None);
            i = i + 1;
        }
        HeldNoteRegistry { slots }
    }

    /// Inserts or overwrites the entry for `note` with the data of its most
    /// recent note-on. A note number past the MIDI range finds no slot and
    /// leaves the registry unchanged.
    pub fn insert(&mut self, note: u8, held: HeldNote)
        requires
            old(self).wf(),
        ensures
            final(self).wf(),
            final(self)@ == if note < NOTE_SLOTS {
                old(self)@.update(note as int, Some(held))
            } else {
                old(self)@
            },
    {
        if (note as usize) < NOTE_SLOTS {
            self.slots.set(note as usize, Some(held));
        }
    }

    /// Removes the entry for `note`: afterwards the note is absent whatever
    /// was held before, and every other note is untouched. Removing an
    /// absent note is a no-op, so removal is idempotent.
    pub fn remove(&mut self, note: u8)
        requires
            old(self).wf(),
        ensures
            final(self).wf(),
            !final(self).is_held_spec(note as int),
            note < NOTE_SLOTS ==> final(self)@ == old(self)@.update(note as int,
                None::<HeldNote>),
            note >= NOTE_SLOTS ==> final(self)@ == old(self)@,
    {
        if (note as usize) < NOTE_SLOTS {
            self.slots.set(note as usize, None);
        }
    }

    /// The held data for `note`, or `None` while it is not sustained.
    pub fn get(&self, note: usize) -> (r: Option<HeldNote>)
        requires
            self.wf(),
        ensures
            r == if note < NOTE_SLOTS {
                self@[note as int]
            } else {
                None::<HeldNote>
            },
    {
        if note < NOTE_SLOTS {
            self.slots[note]
        } else {
            None
        }
    }

    /// Whether note number `note` is currently held.
    pub fn is_held(&self, note: u8) -> (r: bool)
        requires
            self.wf(),
        ensures
            r == self.is_held_spec(note as int),
    {
        if (note as usize) < NOTE_SLOTS {
            self.slots[note as usize].is_some()
        } else {
            false
        }
    }

    /// How many notes are currently held.
    pub fn held_count(&self) -> (r: usize)
        requires
            self.wf(),
        ensures
            r <= NOTE_SLOTS,
            r == count_held(self@, NOTE_SLOTS as int),
    {
        let mut count: usize = 0;
        let mut i: usize = 0;
        while i < NOTE_SLOTS
            invariant
                self.wf(),
                i <= NOTE_SLOTS,
                count == count_held(self@, i as int),
                count <= i,
            decreases NOTE_SLOTS - i,
        {
            if self.slots[i].is_some() {
                count = count + 1;
            }
            i = i + 1;
        }
        count
    }
}

/// How many of the first `upto` slots hold a note.
pub open spec fn count_held(slots: Seq<Option<HeldNote>>, upto: int) -> int
    decreases upto,
{
    if upto <= 0 {
        0
    } else {
        count_held(slots, upto - 1) + if slots[upto - 1] is Some {
            1int
        } else {
            0int
        }
    }
}

} // verus!
