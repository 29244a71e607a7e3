use tinyarp::note_event::NoteEvent;
use tinyarp::registry::HeldNoteRegistry;
use tinyarp::{Engine, FrequencySpec, HeldNote, Step, StepTable, TriggerMode};

const HZ2: FrequencySpec = FrequencySpec::Hertz(2000); // period 500 ms

fn table_of(steps: &[(bool, i32, u32)]) -> StepTable {
    let steps: Vec<Step> = steps.iter().map(|&(e, t, v)| Step::new(e, t, v)).collect();
    StepTable::new(steps).expect("step count within 1..=16")
}

fn on(note: u8, velocity: u8) -> NoteEvent {
    NoteEvent::NoteOn { note, velocity, channel: 0, timing: 0 }
}

fn off(note: u8) -> NoteEvent {
    NoteEvent::NoteOff { note, channel: 0, timing: 0 }
}

#[test]
fn registry_release_is_idempotent_and_total() {
    let mut r = HeldNoteRegistry::new();
    assert!(!r.is_held(60));
    r.remove(60); // releasing an absent note is a no-op
    assert!(!r.is_held(60));
    r.insert(60, HeldNote { velocity: 100, channel: 0, timing: 0 });
    assert!(r.is_held(60));
    assert_eq!(r.held_count(), 1);
    r.remove(60);
    assert!(!r.is_held(60));
    r.remove(60);
    assert!(!r.is_held(60));
    assert_eq!(r.held_count(), 0);
}

#[test]
fn note_off_makes_the_note_absent_whatever_came_before() {
    let mut e = Engine::new();
    e.note_off(&off(72));
    assert!(!e.is_note_held(72));
    e.note_on(&on(72, 90), TriggerMode::Continue, 100);
    e.note_on(&on(72, 110), TriggerMode::Continue, 200); // overwrite while held
    assert!(e.is_note_held(72));
    e.note_off(&off(72));
    assert!(!e.is_note_held(72));
    e.note_off(&off(72));
    assert!(!e.is_note_held(72));
}

#[test]
fn idle_opportunities_emit_nothing_and_keep_the_baseline() {
    let mut e = Engine::new();
    let t = table_of(&[(true, 0, 0), (true, 0, 0)]);
    for step in 0..5u64 {
        let out = e.emit_opportunity(1000 + step * 700, &t, &HZ2);
        assert!(out.is_empty());
        assert_eq!(e.last_emission_millis(), 0);
        assert_eq!(e.cursor_position(), 0);
    }
}

#[test]
fn a_held_note_repeats_on_the_cadence() {
    let mut e = Engine::new();
    let t = table_of(&[(true, 0, 0)]);
    e.note_on(&on(60, 100), TriggerMode::Continue, 1000);
    let out = e.emit_opportunity(1000, &t, &HZ2);
    assert_eq!(out, vec![on(60, 100)]);
    assert_eq!(e.last_emission_millis(), 1000);
    // within the period: silent, baseline untouched
    let out = e.emit_opportunity(1400, &t, &HZ2);
    assert!(out.is_empty());
    assert_eq!(e.last_emission_millis(), 1000);
    // just past the period: the note repeats
    let out = e.emit_opportunity(1501, &t, &HZ2);
    assert_eq!(out, vec![on(60, 100)]);
    assert_eq!(e.last_emission_millis(), 1501);
}

#[test]
fn each_held_note_draws_its_own_successive_step() {
    let mut e = Engine::new();
    let t = table_of(&[(true, 1, 0), (true, 2, 0)]);
    e.note_on(&on(60, 100), TriggerMode::Continue, 1000);
    e.note_on(&on(70, 80), TriggerMode::Continue, 1000);
    let out = e.emit_opportunity(1000, &t, &HZ2);
    // held notes visited in ascending order, consuming steps 0 then 1
    assert_eq!(out, vec![on(61, 100), on(72, 80)]);
    // next opportunity continues the rotation from step 0 again
    let out = e.emit_opportunity(1501, &t, &HZ2);
    assert_eq!(out, vec![on(61, 100), on(72, 80)]);
}

#[test]
fn a_note_without_an_available_step_emits_nothing() {
    let mut e = Engine::new();
    let t = table_of(&[(false, 0, 0), (false, 0, 0), (false, 0, 0)]);
    e.note_on(&on(60, 100), TriggerMode::Continue, 1000);
    let out = e.emit_opportunity(1000, &t, &HZ2);
    assert!(out.is_empty());
    // nothing was emitted, so the baseline keeps its old value
    assert_eq!(e.last_emission_millis(), 0);
    // but the failed searches did move the cursor
    assert_eq!(e.cursor_position(), 2);
}

#[test]
fn retrigger_makes_the_very_next_opportunity_due() {
    let mut e = Engine::new();
    let t = table_of(&[(true, 0, 0)]);
    e.note_on(&on(60, 100), TriggerMode::Continue, 10_000);
    assert_eq!(e.emit_opportunity(10_000, &t, &HZ2).len(), 1);
    assert_eq!(e.last_emission_millis(), 10_000);
    // 100 ms later, far within the period, a re-triggering note arrives
    e.note_on(&on(62, 100), TriggerMode::ReTrigger, 10_100);
    assert_eq!(e.last_emission_millis(), 0);
    let out = e.emit_opportunity(10_101, &t, &HZ2);
    assert_eq!(out.len(), 2);
}

#[test]
fn retrigger_delayed_waits_one_full_period_from_the_note() {
    let mut e = Engine::new();
    let t = table_of(&[(true, 0, 0)]);
    e.note_on(&on(60, 100), TriggerMode::Continue, 10_000);
    assert_eq!(e.emit_opportunity(10_000, &t, &HZ2).len(), 1);
    // 400 ms into the period a repetition would have come due at 10 501;
    // the delayed re-trigger pushes the baseline to the note's arrival
    e.note_on(&on(62, 100), TriggerMode::ReTriggerDelayed, 10_400);
    assert_eq!(e.last_emission_millis(), 10_400);
    assert!(e.emit_opportunity(10_600, &t, &HZ2).is_empty());
    assert!(e.emit_opportunity(10_900, &t, &HZ2).is_empty());
    assert_eq!(e.emit_opportunity(10_901, &t, &HZ2).len(), 2);
}

#[test]
fn continue_mode_leaves_the_baseline_alone() {
    let mut e = Engine::new();
    let t = table_of(&[(true, 0, 0)]);
    e.note_on(&on(60, 100), TriggerMode::Continue, 5_000);
    assert_eq!(e.emit_opportunity(5_000, &t, &HZ2).len(), 1);
    e.note_on(&on(62, 100), TriggerMode::Continue, 5_100);
    assert_eq!(e.last_emission_millis(), 5_000);
    assert!(e.emit_opportunity(5_200, &t, &HZ2).is_empty());
}

#[test]
fn process_block_applies_events_then_emits() {
    let mut e = Engine::new();
    let t = table_of(&[(true, 12, 0)]);
    let events = vec![on(60, 100), on(64, 90)];
    let out = e.process_block(&events, 1000, &t, &HZ2, TriggerMode::Continue);
    assert_eq!(out, vec![on(72, 100), on(76, 90)]);
    assert!(e.is_note_held(60));
    assert!(e.is_note_held(64));
}

#[test]
fn process_block_releases_before_emitting() {
    let mut e = Engine::new();
    let t = table_of(&[(true, 0, 0)]);
    let out = e.process_block(&vec![on(60, 100), off(60)], 1000, &t, &HZ2,
        TriggerMode::Continue);
    assert!(out.is_empty());
    assert!(!e.is_note_held(60));
    // a released note stops repeating even though a repetition was due
    assert_eq!(e.last_emission_millis(), 0);
}

#[test]
fn out_of_range_note_numbers_are_ignored() {
    let mut e = Engine::new();
    let t = table_of(&[(true, 0, 0)]);
    e.note_on(&on(200, 100), TriggerMode::Continue, 1000);
    assert!(!e.is_note_held(200));
    assert!(e.emit_opportunity(1000, &t, &HZ2).is_empty());
    e.note_off(&off(200));
    assert!(!e.is_note_held(200));
}

#[test]
fn timing_offset_is_carried_through() {
    let mut e = Engine::new();
    let t = table_of(&[(true, 3, 0)]);
    let ev = NoteEvent::NoteOn { note: 50, velocity: 64, channel: 5, timing: 42 };
    e.note_on(&ev, TriggerMode::Continue, 1000);
    let out = e.emit_opportunity(1000, &t, &HZ2);
    assert_eq!(
        out,
        vec![NoteEvent::NoteOn { note: 53, velocity: 64, channel: 5, timing: 42 }]
    );
}
