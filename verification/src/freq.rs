//! The cadence check: converts a configured frequency specification into a
//! period in milliseconds and decides whether enough time has elapsed since
//! the last emission to emit the next repetition.

use vstd::prelude::*;

verus! {

/// Which unit the repetition frequency is configured in.
#[derive(Clone, Copy, PartialEq, Eq, Structural, Debug)]
pub enum FrequencyType {
    Hertz,
    Milliseconds,
    Bpm,
}

impl FrequencyType {
    /// The display label of this unit.
    pub fn name(&self) -> (r: &'static str)
        ensures
            r@ == self.name_spec(),
    {
        match self {
            FrequencyType::Hertz => "Hz",
            FrequencyType::Milliseconds => "Ms",
            FrequencyType::Bpm => "Bpm",
        }
    }

    pub open spec fn name_spec(self) -> Seq<char> {
        match self {
            FrequencyType::Hertz => "Hz"@,
            FrequencyType::Milliseconds => "Ms"@,
            FrequencyType::Bpm => "Bpm"@,
        }
    }

    /// The next unit in the fixed rotation, wrapping back to the first;
    /// a total successor operation in place of an integer-backed cast.
    pub fn successor(&self) -> (r: FrequencyType)
        ensures
            r == self.successor_spec(),
    {
        match self {
            FrequencyType::Hertz => FrequencyType::Milliseconds,
            FrequencyType::Milliseconds => FrequencyType::Bpm,
            FrequencyType::Bpm => FrequencyType::Hertz,
        }
    }

    pub open spec fn successor_spec(self) -> FrequencyType {
        match self {
            FrequencyType::Hertz => FrequencyType::Milliseconds,
            FrequencyType::Milliseconds => FrequencyType::Bpm,
            FrequencyType::Bpm => FrequencyType::Hertz,
        }
    }
}

/// A frequency specification: a unit together with its configured value.
///
/// Values are held in fixed point, in thousandths of the unit, so that
/// fractional settings (0.5 Hz, 117.5 BPM) have an exact representation:
/// `Hertz(2000)` is 2 Hz, `Bpm(120_000)` is 120 BPM, and
/// `Milliseconds(500_000)` is 500 ms.
#[derive(Clone, Copy, PartialEq, Eq, Structural, Debug)]
pub enum FrequencySpec {
    Hertz(u64),
    Milliseconds(u64),
    Bpm(u64),
}

/// The period between emissions, in whole milliseconds, that a frequency
/// specification denotes: 1000/f for `f` in Hz, 60000/f for `f` in BPM, and
/// the value itself for milliseconds, each rounded down.
///
/// A zero frequency would divide by zero; its period is unbounded and is
/// reported as `None`, on which the cadence is never due. A zero `Milliseconds`
/// value needs no such guard: its period is simply zero.
pub open spec fn period_millis_spec(spec: FrequencySpec) -> Option<u64> {
    match spec {
        FrequencySpec::Hertz(mhz) => if mhz == 0 {
            None
        } else {
            Some(1_000_000u64 / mhz)
        },
        FrequencySpec::Milliseconds(mms) => Some(mms / 1000u64),
        FrequencySpec::Bpm(mbpm) => if mbpm == 0 {
            None
        } else {
            Some(60_000_000u64 / mbpm)
        },
    }
}

/// The time elapsed between a past instant and now, clamped to zero when the
/// clock appears to have moved backwards.
pub open spec fn elapsed_millis_spec(now: u64, last: u64) -> int {
    if now >= last {
        now - last
    } else {
        0
    }
}

/// Whether an emission is due: strictly more than one period has elapsed
/// since the last one. At exact equality nothing is due yet, and a
/// specification without a period (zero Hz or BPM) is never due.
pub open spec fn is_due_spec(now: u64, last: u64, spec: FrequencySpec) -> bool {
    match period_millis_spec(spec) {
        None => false,
        Some(p) => elapsed_millis_spec(now, last) > p,
    }
}

impl FrequencySpec {
    /// The period between emissions in whole milliseconds, or `None` when the
    /// configured frequency is zero and an emission must never come due.
    pub fn period_millis(&self) -> (r: Option<u64>)
        ensures
            r == period_millis_spec(*self),
    {
        match self {
            FrequencySpec::Hertz(mhz) => {
                if *mhz == 0 {
                    None
                } else {
                    Some(1_000_000u64 / *mhz)
                }
            },
            FrequencySpec::Milliseconds(mms) => Some(*mms / 1000u64),
            FrequencySpec::Bpm(mbpm) => {
                if *mbpm == 0 {
                    None
                } else {
                    Some(60_000_000u64 / *mbpm)
                }
            },
        }
    }
}

/// Milliseconds elapsed from `last` to `now`, zero when `now` lies before
/// `last` (clock skew must not underflow).
pub fn elapsed_millis(now: u64, last: u64) -> (r: u64)
    ensures
        r == elapsed_millis_spec(now, last),
{
    if now >= last {
        now - last
    } else {
        0
    }
}

/// The cadence decision: true exactly when strictly more than one period of
/// `spec` has elapsed from `last` to `now`. Total for every input; a zero
/// Hz or BPM frequency is never due.
pub fn is_due(now: u64, last: u64, spec: &FrequencySpec) -> (r: bool)
    ensures
        r == is_due_spec(now, last, *spec),
{
    let elapsed = elapsed_millis(now, last);
    match spec.period_millis() {
        None => false,
        Some(p) => elapsed > p,
    }
}

/// The cadence is a strict threshold in elapsed time: whenever the
/// specification has a period at all, nothing is due at any elapsed time up
/// to and including the period, and an emission is due at any elapsed time
/// strictly beyond it.
pub proof fn lemma_due_threshold(now: u64, last: u64, spec: FrequencySpec, p: u64)
    requires
        period_millis_spec(spec) == Some(p),
    ensures
        is_due_spec(now, last, spec) <==> elapsed_millis_spec(now, last) > p,
{
}

/// The cadence is monotone in time: with the baseline fixed, once an
/// emission is due at some instant it stays due at every later instant.
pub proof fn lemma_due_monotone(now1: u64, now2: u64, last: u64, spec: FrequencySpec)
    requires
        now1 <= now2,
    ensures
        is_due_spec(now1, last, spec) ==> is_due_spec(now2, last, spec),
{
}

} // verus!
