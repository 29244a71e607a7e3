//! The engine: process-wide state (held notes, timing baseline, step cursor)
//! and the single entry points the host collaborator drives once per
//! processing opportunity.

use vstd::prelude::*;
use crate::cursor::cursor_norm;
use crate::cursor::scan;
use crate::cursor::try_budget;
use crate::cursor::StepCursor;
use crate::freq::is_due;
use crate::freq::is_due_spec;
use crate::freq::period_millis_spec;
use crate::freq::FrequencySpec;
use crate::note_event::modulate;
use crate::note_event::modulated_spec;
use crate::note_event::HeldNote;
use crate::note_event::NoteEvent;
use crate::registry::HeldNoteRegistry;
use crate::registry::NOTE_SLOTS;
use crate::step::Step;
use crate::step::StepTable;
use crate::trigger_mode::retriggered_timestamp;
use crate::trigger_mode::TriggerMode;

verus! {

/// The held-note slots after writing `entry` for note number `note`; a note
/// number past the MIDI range finds no slot and changes nothing.
pub open spec fn held_with(
    held: Seq<Option<HeldNote>>,
    note: u8,
    entry: Option<HeldNote>,
) -> Seq<Option<HeldNote>> {
    if note < NOTE_SLOTS {
        held.update(note as int, entry)
    } else {
        held
    }
}

/// The held-note slots and timing baseline after one incoming event: a
/// note-on records the note and re-triggers the baseline per the mode, a
/// note-off releases the note and leaves the baseline alone.
pub open spec fn event_applied(
    held: Seq<Option<HeldNote>>,
    last: u64,
    ev: NoteEvent,
    mode: TriggerMode,
    now: u64,
) -> (Seq<Option<HeldNote>>, u64) {
    match ev {
        NoteEvent::NoteOn { note, velocity, channel, timing } => (
            held_with(held, note, Some(HeldNote { velocity, channel, timing })),
            retriggered_timestamp(mode, last, now),
        ),
        NoteEvent::NoteOff { note, .. } => (held_with(held, note, None), last),
    }
}

/// The held-note slots and timing baseline after the first `upto` events of
/// a block, applied in arrival order.
pub open spec fn events_applied_upto(
    held: Seq<Option<HeldNote>>,
    last: u64,
    events: Seq<NoteEvent>,
    upto: int,
    mode: TriggerMode,
    now: u64,
) -> (Seq<Option<HeldNote>>, u64)
    decreases upto,
{
    if upto <= 0 {
        (held, last)
    } else {
        let prev = events_applied_upto(held, last, events, upto - 1, mode, now);
        event_applied(prev.0, prev.1, events[upto - 1], mode, now)
    }
}

/// What one due opportunity emits for the held notes below `upto`, and
/// where it leaves the cursor. Held notes are visited in ascending note
/// order; each one draws its own step from the same rotating cursor, so
/// concurrently held notes receive successive steps rather than sharing one.
/// A note for which the bounded search finds no enabled step emits nothing,
/// though the search still moves the cursor.
pub open spec fn emit_upto(
    held: Seq<Option<HeldNote>>,
    steps: Seq<Step>,
    upto: int,
    cursor: int,
) -> (Seq<NoteEvent>, int)
    decreases upto,
{
    if upto <= 0 {
        (Seq::<NoteEvent>::empty(), cursor)
    } else {
        let prev = emit_upto(held, steps, upto - 1, cursor);
        match held[upto - 1] {
            None => prev,
            Some(h) => {
                let n = steps.len() as int;
                let sc = scan(steps, cursor_norm(prev.1, n), try_budget(n));
                match sc.0 {
                    Some(k) => (
                        prev.0.push(modulated_spec(
                            NoteEvent::NoteOn {
                                note: (upto - 1) as u8,
                                velocity: h.velocity,
                                channel: h.channel,
                                timing: h.timing,
                            },
                            steps[k],
                        )),
                        sc.1,
                    ),
                    None => (prev.0, sc.1),
                }
            },
        }
    }
}

/// The step-sequencing and timing engine. Owned and driven by a single
/// processing callback; configuration (step table, frequency, trigger mode)
/// arrives as a read-only snapshot with every call.
#[derive(Debug)]
pub struct Engine {
    registry: HeldNoteRegistry,
    cursor: StepCursor,
    last_emission_timestamp: u64,
}

impl Engine {
    /// The currently held notes, one slot per MIDI note number.
    pub closed spec fn held(self) -> Seq<Option<HeldNote>> {
        self.registry@
    }

    /// The timing baseline: when the engine last emitted (or was re-triggered
    /// to pretend it did), in milliseconds of the host clock.
    pub closed spec fn last_emission(self) -> u64 {
        self.last_emission_timestamp
    }

    /// The rotating cursor's position.
    pub closed spec fn cursor_index(self) -> int {
        self.cursor.index()
    }

    /// The engine's invariant: one held-note slot per MIDI note number.
    pub open spec fn wf(self) -> bool {
        self.held().len() == NOTE_SLOTS
    }

    /// A fresh engine: nothing held, the cursor at the start of the table,
    /// and the timing baseline at the earliest representable instant so that
    /// the first opportunity past one period is due.
    pub fn new() -> (r: Engine)
        ensures
            r.wf(),
            forall|n: int| 0 <= n < NOTE_SLOTS ==> r.held()[n] is None,
            r.last_emission() == 0,
            r.cursor_index() == 0,
    {
        Engine {
            registry: HeldNoteRegistry::new(),
            cursor: StepCursor::new(),
            last_emission_timestamp: 0,
        }
    }

    /// Observes a note-on: records the note as held (inserting or
    /// overwriting its entry) and re-triggers the timing baseline per the
    /// mode — once per note-on, whether or not the note was already held.
    pub fn note_on(&mut self, ev: &NoteEvent, mode: TriggerMode, now: u64)
        requires
            old(self).wf(),
            *ev is NoteOn,
        ensures
            final(self).wf(),
            (*ev) matches NoteEvent::NoteOn { note, velocity, channel, timing }
                ==> final(self).held() == held_with(old(self).held(), note,
                    Some(HeldNote { velocity, channel, timing })),
            final(self).last_emission()
                == retriggered_timestamp(mode, old(self).last_emission(), now),
            final(self).cursor_index() == old(self).cursor_index(),
    {
        match mode {
            TriggerMode::Continue => {},
            TriggerMode::ReTrigger => {
                self.last_emission_timestamp = 0;
            },
            TriggerMode::ReTriggerDelayed => {
                self.last_emission_timestamp = now;
            },
        }
        match ev {
            NoteEvent::NoteOn { note, velocity, channel, timing } => {
                self.registry.insert(*note, HeldNote {
                    velocity: *velocity,
                    channel: *channel,
                    timing: *timing,
                });
            },
            NoteEvent::NoteOff { .. } => {},
        }
    }

    /// Observes a note-off: afterwards the note is absent from the registry
    /// whatever was held before, and every other note, the timing baseline
    /// and the cursor are untouched. Releasing an absent note is a no-op, so
    /// release is idempotent.
    pub fn note_off(&mut self, ev: &NoteEvent)
        requires
            old(self).wf(),
            *ev is NoteOff,
        ensures
            final(self).wf(),
            (*ev) matches NoteEvent::NoteOff { note, .. }
                ==> final(self).held() == held_with(old(self).held(), note,
                        None::<HeldNote>)
                    && (note < NOTE_SLOTS ==> final(self).held()[note as int] is None),
            final(self).last_emission() == old(self).last_emission(),
            final(self).cursor_index() == old(self).cursor_index(),
    {
        match ev {
            NoteEvent::NoteOff { note, .. } => {
                self.registry.remove(*note);
            },
            NoteEvent::NoteOn { .. } => {},
        }
    }

    /// One processing opportunity. While no emission is due this does nothing
    /// at all. Once one is due, every held note draws its own step from the
    /// rotating cursor and its modulated note-on is emitted; notes for which
    /// no enabled step is available within the try budget emit nothing. The
    /// timing baseline moves to `now` only when at least one note-on was
    /// emitted, so idle opportunities never reset the cadence.
    pub fn emit_opportunity(
        &mut self,
        now: u64,
        table: &StepTable,
        freq: &FrequencySpec,
    ) -> (out: Vec<NoteEvent>)
        requires
            old(self).wf(),
            table.wf(),
        ensures
            final(self).wf(),
            final(self).held() == old(self).held(),
            ({
                if is_due_spec(now, old(self).last_emission(), *freq) {
                    let em = emit_upto(old(self).held(), table@, NOTE_SLOTS as int,
                        old(self).cursor_index());
                    &&& out@ == em.0
                    &&& final(self).cursor_index() == em.1
                    &&& final(self).last_emission() == if em.0.len() > 0 {
                        now
                    } else {
                        old(self).last_emission()
                    }
                } else {
                    &&& out@ == Seq::<NoteEvent>::empty()
                    &&& final(self).cursor_index() == old(self).cursor_index()
                    &&& final(self).last_emission() == old(self).last_emission()
                }
            }),
    {
        let mut out: Vec<NoteEvent> = Vec::new();
        if !is_due(now, self.last_emission_timestamp, freq) {
            return out;
        }
        let mut any: bool = false;
        let mut note: usize = 0;
        while note < NOTE_SLOTS
            invariant
                self.wf(),
                table.wf(),
                note <= NOTE_SLOTS,
                self.held() == old(self).held(),
                self.last_emission() == old(self).last_emission(),
                ({
                    let em = emit_upto(old(self).held(), table@, note as int,
                        old(self).cursor_index());
                    out@ == em.0 && self.cursor_index() == em.1
                }),
                any == (out@.len() > 0),
            decreases NOTE_SLOTS - note,
        {
            match self.registry.get(note) {
                Some(h) => {
                    match self.cursor.select_step(table) {
                        Some(k) => {
                            let ev = NoteEvent::NoteOn {
                                note: note as u8,
                                velocity: h.velocity,
                                channel: h.channel,
                                timing: h.timing,
                            };
                            match table.step(k) {
                                Some(st) => {
                                    out.push(modulate(&ev, &st));
                                    any = true;
                                },
                                None => {},
                            }
                        },
                        None => {},
                    }
                },
                None => {},
            }
            note = note + 1;
        }
        if any {
            self.last_emission_timestamp = now;
        }
        out
    }

    /// One whole processing block: the block's events are applied in arrival
    /// order (note-ons recorded, note-offs released, the baseline
    /// re-triggered per the mode), then a single emission opportunity runs
    /// at the block's time. A note-off takes effect the moment it is
    /// applied — the registry never carries releases forward — so a note
    /// released within a block does not repeat at that block's opportunity.
    pub fn process_block(
        &mut self,
        events: &Vec<NoteEvent>,
        now: u64,
        table: &StepTable,
        freq: &FrequencySpec,
        mode: TriggerMode,
    ) -> (out: Vec<NoteEvent>)
        requires
            old(self).wf(),
            table.wf(),
        ensures
            final(self).wf(),
            ({
                let st = events_applied_upto(old(self).held(), old(self).last_emission(),
                    events@, events@.len() as int, mode, now);
                &&& final(self).held() == st.0
                &&& if is_due_spec(now, st.1, *freq) {
                    let em = emit_upto(st.0, table@, NOTE_SLOTS as int,
                        old(self).cursor_index());
                    &&& out@ == em.0
                    &&& final(self).cursor_index() == em.1
                    &&& final(self).last_emission() == if em.0.len() > 0 {
                        now
                    } else {
                        st.1
                    }
                } else {
                    &&& out@ == Seq::<NoteEvent>::empty()
                    &&& final(self).cursor_index() == old(self).cursor_index()
                    &&& final(self).last_emission() == st.1
                }
            }),
    {
        let mut i: usize = 0;
        while i < events.len()
            invariant
                self.wf(),
                i <= events@.len(),
                ({
                    let st = events_applied_upto(old(self).held(),
                        old(self).last_emission(), events@, i as int, mode, now);
                    self.held() == st.0 && self.last_emission() == st.1
                }),
                self.cursor_index() == old(self).cursor_index(),
            decreases events@.len() - i,
        {
            let ev = events[i];
            match ev {
                NoteEvent::NoteOn { .. } => self.note_on(&ev, mode, now),
                NoteEvent::NoteOff { .. } => self.note_off(&ev),
            }
            i = i + 1;
        }
        self.emit_opportunity(now, table, freq)
    }

    /// The timing baseline, for inspection.
    pub fn last_emission_millis(&self) -> (r: u64)
        ensures
            r == self.last_emission(),
    {
        self.last_emission_timestamp
    }

    /// The rotating cursor's position, for inspection.
    pub fn cursor_position(&self) -> (r: usize)
        ensures
            r == self.cursor_index(),
    {
        self.cursor.position()
    }

    /// Whether note number `note` is currently held.
    pub fn is_note_held(&self, note: u8) -> (r: bool)
        requires
            self.wf(),
        ensures
            r == (note < NOTE_SLOTS && self.held()[note as int] is Some),
    {
        self.registry.is_held(note)
    }
}

/// With no notes held an opportunity emits nothing and leaves the cursor
/// where it was — and by the emission contract the timing baseline then
/// keeps its old value as well, however often the opportunity recurs.
pub proof fn lemma_no_held_notes_no_emission(
    held: Seq<Option<HeldNote>>,
    steps: Seq<Step>,
    upto: int,
    cursor: int,
)
    requires
        forall|n: int| 0 <= n < held.len() ==> held[n] is None,
        upto <= held.len(),
    ensures
        emit_upto(held, steps, upto, cursor) == (Seq::<NoteEvent>::empty(), cursor),
    decreases upto,
{
    if upto > 0 {
        lemma_no_held_notes_no_emission(held, steps, upto - 1, cursor);
    }
}

/// A note-on in `ReTrigger` mode rewinds the baseline to the earliest
/// representable instant, so the very next opportunity is due whatever time
/// had elapsed before — for any opportunity that lies later than one period
/// past that earliest instant.
pub proof fn lemma_retrigger_makes_next_opportunity_due(
    last_before: u64,
    now_on: u64,
    now_next: u64,
    freq: FrequencySpec,
    p: u64,
)
    requires
        period_millis_spec(freq) == Some(p),
        now_next > p,
    ensures
        is_due_spec(now_next,
            retriggered_timestamp(TriggerMode::ReTrigger, last_before, now_on), freq),
{
}

/// A note-on in `ReTriggerDelayed` mode moves the baseline to the note's own
/// arrival time, so no emission comes due at any opportunity until one
/// full period has elapsed from that arrival — whatever time had elapsed
/// before the note.
pub proof fn lemma_retrigger_delayed_waits_full_period(
    last_before: u64,
    now_on: u64,
    now_next: u64,
    freq: FrequencySpec,
    p: u64,
)
    requires
        period_millis_spec(freq) == Some(p),
        now_next <= now_on + p,
    ensures
        !is_due_spec(now_next,
            retriggered_timestamp(TriggerMode::ReTriggerDelayed, last_before, now_on),
            freq),
{
}

} // verus!
