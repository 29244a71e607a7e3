//! The step table: the ordered collection of per-step configuration that the
//! engine reads, but never mutates, on every processing opportunity.

use vstd::prelude::*;

verus! {

/// The smallest pitch transpose a step may carry, in semitones.
pub const TRANSPOSE_MIN: i32 = -24;

/// The largest pitch transpose a step may carry, in semitones.
pub const TRANSPOSE_MAX: i32 = 24;

/// The largest velocity offset a step may carry, in hundredths
/// (100 stands for the full-scale offset 1.0).
pub const VELOCITY_OFFSET_MAX: u32 = 100;

/// The largest number of steps a table may hold.
pub const MAX_STEPS: usize = 16;

/// One configurable slot in the repeating sequence.
#[derive(Clone, Copy, PartialEq, Eq, Structural, Debug)]
pub struct Step {
    /// Whether the step takes part in the rotation.
    pub enabled: bool,
    /// Pitch offset in semitones, within [-24, 24].
    pub transpose: i32,
    /// Velocity offset in hundredths of the 0.0-1.0 scale, within [0, 100].
    pub velocity_offset: u32,
}

impl Step {
    /// A step's attributes lie within their configured ranges.
    pub open spec fn wf(self) -> bool {
        &&& TRANSPOSE_MIN <= self.transpose <= TRANSPOSE_MAX
        &&& self.velocity_offset <= VELOCITY_OFFSET_MAX
    }

    /// Builds a step, clamping each attribute into its range.
    pub fn new(enabled: bool, transpose: i32, velocity_offset: u32) -> (s: Step)
        ensures
            s.wf(),
            s.enabled == enabled,
            s.transpose == if transpose < TRANSPOSE_MIN {
                TRANSPOSE_MIN as int
            } else if transpose > TRANSPOSE_MAX {
                TRANSPOSE_MAX as int
            } else {
                transpose as int
            },
            s.velocity_offset == if velocity_offset > VELOCITY_OFFSET_MAX {
                VELOCITY_OFFSET_MAX as int
            } else {
                velocity_offset as int
            },
    {
        let t: i32 = if transpose < TRANSPOSE_MIN {
            TRANSPOSE_MIN
        } else if transpose > TRANSPOSE_MAX {
            TRANSPOSE_MAX
        } else {
            transpose
        };
        let v: u32 = if velocity_offset > VELOCITY_OFFSET_MAX {
            VELOCITY_OFFSET_MAX
        } else {
            velocity_offset
        };
        Step { enabled, transpose: t, velocity_offset: v }
    }
}

/// The ordered, read-only collection of configured steps. By construction it
/// holds between 1 and 16 steps, each within its attribute ranges.
#[derive(Debug)]
pub struct StepTable {
    steps: Vec<Step>,
}

impl View for StepTable {
    type V = Seq<Step>;

    closed spec fn view(&self) -> Seq<Step> {
        self.steps@
    }
}

impl StepTable {
    /// The table's invariant: a step count between 1 and 16, every step
    /// within its attribute ranges.
    pub open spec fn wf(self) -> bool {
        &&& 1 <= self@.len() <= MAX_STEPS
        &&& forall|i: int| 0 <= i < self@.len() ==> self@[i].wf()
    }

    /// Builds a table from the given steps. Returns `None` exactly when the
    /// slice is empty, longer than 16 steps, or holds a step outside its
    /// attribute ranges.
    pub fn new(steps: Vec<Step>) -> (r: Option<StepTable>)
        ensures
            match r {
                Some(t) => t.wf() && t@ == steps@,
                None => !(1 <= steps@.len() <= MAX_STEPS
                    && forall|i: int| 0 <= i < steps@.len() ==> steps@[i].wf()),
            },
    {
        if steps.len() < 1 || steps.len() > MAX_STEPS {
            return None;
        }
        let mut i: usize = 0;
        while i < steps.len()
            invariant
                i <= steps@.len(),
                forall|j: int| 0 <= j < i ==> steps@[j].wf(),
            decreases steps@.len() - i,
        {
            let s = steps[i];
            if s.transpose < TRANSPOSE_MIN || s.transpose > TRANSPOSE_MAX
                || s.velocity_offset > VELOCITY_OFFSET_MAX {
                return None;
            }
            i = i + 1;
        }
        Some(StepTable { steps })
    }

    /// The configured step count.
    pub fn len(&self) -> (n: usize)
        ensures
            n == self@.len(),
    {
        self.steps.len()
    }

    /// Whether the step at `index` exists and is enabled; false for an index
    /// at or past the configured count.
    pub fn is_enabled(&self, index: usize) -> (r: bool)
        ensures
            r == (index < self@.len() && self@[index as int].enabled),
    {
        if index < self.steps.len() {
            self.steps[index].enabled
        } else {
            false
        }
    }

    /// The step at `index`, or `None` for an index at or past the configured
    /// count.
    pub fn step(&self, index: usize) -> (r: Option<Step>)
        ensures
            r == if index < self@.len() {
                Some(self@[index as int])
            } else {
                None::<Step>
            },
    {
        if index < self.steps.len() {
            Some(self.steps[index])
        } else {
            None
        }
    }
}

} // verus!
