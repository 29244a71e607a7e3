use tinyarp::freq::{elapsed_millis, is_due};
use tinyarp::{FrequencySpec, FrequencyType, TriggerMode};

#[test]
fn period_of_two_hertz_is_500_ms() {
    assert_eq!(FrequencySpec::Hertz(2000).period_millis(), Some(500));
}

#[test]
fn period_of_120_bpm_is_500_ms() {
    assert_eq!(FrequencySpec::Bpm(120_000).period_millis(), Some(500));
}

#[test]
fn period_of_500_ms_is_500_ms_directly() {
    assert_eq!(FrequencySpec::Milliseconds(500_000).period_millis(), Some(500));
}

#[test]
fn zero_hertz_has_no_period() {
    assert_eq!(FrequencySpec::Hertz(0).period_millis(), None);
}

#[test]
fn zero_bpm_has_no_period() {
    assert_eq!(FrequencySpec::Bpm(0).period_millis(), None);
}

#[test]
fn zero_milliseconds_has_period_zero() {
    assert_eq!(FrequencySpec::Milliseconds(0).period_millis(), Some(0));
}

#[test]
fn fractional_hertz_round_down() {
    // 3 Hz -> 333.33 ms, rounded down to 333
    assert_eq!(FrequencySpec::Hertz(3000).period_millis(), Some(333));
    // 0.5 Hz -> 2000 ms
    assert_eq!(FrequencySpec::Hertz(500).period_millis(), Some(2000));
}

#[test]
fn nothing_is_due_up_to_the_period_and_everything_beyond() {
    let f = FrequencySpec::Hertz(2000); // period 500 ms
    assert!(!is_due(499, 0, &f));
    assert!(!is_due(500, 0, &f)); // exact equality: closed
    assert!(is_due(501, 0, &f));
    assert!(is_due(1_000_000, 0, &f));
}

#[test]
fn a_spec_without_a_period_is_never_due() {
    let f = FrequencySpec::Hertz(0);
    assert!(!is_due(u64::MAX, 0, &f));
    let b = FrequencySpec::Bpm(0);
    assert!(!is_due(u64::MAX, 0, &b));
}

#[test]
fn elapsed_time_is_measured_from_the_baseline() {
    let f = FrequencySpec::Milliseconds(500_000);
    assert!(!is_due(1400, 1000, &f));
    assert!(is_due(1501, 1000, &f));
}

#[test]
fn clock_skew_clamps_elapsed_time_to_zero() {
    assert_eq!(elapsed_millis(100, 900), 0);
    assert_eq!(elapsed_millis(900, 100), 800);
    let f = FrequencySpec::Milliseconds(500_000);
    assert!(!is_due(100, 900, &f));
}

#[test]
fn frequency_type_successor_rotates() {
    assert_eq!(FrequencyType::Hertz.successor(), FrequencyType::Milliseconds);
    assert_eq!(FrequencyType::Milliseconds.successor(), FrequencyType::Bpm);
    assert_eq!(FrequencyType::Bpm.successor(), FrequencyType::Hertz);
}

#[test]
fn frequency_type_names() {
    assert_eq!(FrequencyType::Hertz.name(), "Hz");
    assert_eq!(FrequencyType::Milliseconds.name(), "Ms");
    assert_eq!(FrequencyType::Bpm.name(), "Bpm");
}

#[test]
fn trigger_mode_successor_rotates() {
    assert_eq!(TriggerMode::Continue.successor(), TriggerMode::ReTrigger);
    assert_eq!(TriggerMode::ReTrigger.successor(), TriggerMode::ReTriggerDelayed);
    assert_eq!(TriggerMode::ReTriggerDelayed.successor(), TriggerMode::Continue);
}

#[test]
fn trigger_mode_names_and_descriptions() {
    assert_eq!(TriggerMode::Continue.name(), "Continue");
    assert_eq!(TriggerMode::ReTrigger.name(), "Re-trigger");
    assert_eq!(TriggerMode::ReTriggerDelayed.name(), "Re-trigger delayed");
    assert_eq!(
        TriggerMode::Continue.description(),
        "MIDI notes have no effect on the repetition loop"
    );
    assert_eq!(
        TriggerMode::ReTrigger.description(),
        "MIDI notes re-trigger the repetition loop"
    );
    assert_eq!(
        TriggerMode::ReTriggerDelayed.description(),
        "MIDI notes re-trigger the repetition loop with an initial delay ( = frequency)"
    );
}
