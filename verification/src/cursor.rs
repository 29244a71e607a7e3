//! The step cursor: a rotating pointer over the step table that skips
//! disabled steps, with a bounded try budget so that a fully disabled table
//! terminates without emitting.

use vstd::prelude::*;
use crate::step::Step;
use crate::step::StepTable;

verus! {

/// The position the cursor works from against a table of `n` steps: its own
/// index when that is still within range, otherwise the start of the table
/// (the step count may have shrunk since the cursor last moved).
pub open spec fn cursor_norm(index: int, n: int) -> int {
    if 0 <= index < n {
        index
    } else {
        0
    }
}

/// The position after `index` in the rotation over `n` steps: one further,
/// wrapping to the start after the last step.
pub open spec fn step_after(index: int, n: int) -> int {
    if index + 1 >= n {
        0
    } else {
        index + 1
    }
}

/// How many steps a single selection may probe in a table of `n` steps:
/// `n - 1`, except that a table of one step has its only step tried once.
pub open spec fn try_budget(n: int) -> nat {
    if n <= 1 {
        1
    } else {
        (n - 1) as nat
    }
}

/// The table position a search starting at `index` probes on its `k`-th try,
/// in a table of `n` steps.
pub open spec fn probe_index(index: int, k: int, n: int) -> int {
    (index + k) % n
}

/// One bounded search over `steps` for an enabled step: probe the step at
/// `index`, then each successor in rotation, at most `tries` probes in all.
/// Yields the first enabled index found (or `None`) together with the cursor
/// position after the search; each probe moves the cursor one step onward.
pub open spec fn scan(steps: Seq<Step>, index: int, tries: nat) -> (Option<int>, int)
    decreases tries,
{
    if tries == 0 {
        (None, index)
    } else {
        let next = step_after(index, steps.len() as int);
        if steps[index].enabled {
            (Some(index), next)
        } else {
            scan(steps, next, (tries - 1) as nat)
        }
    }
}

/// The rotating pointer over the step table. Process-wide state owned by the
/// engine, persisting across processing opportunities.
#[derive(Clone, Copy, Debug)]
pub struct StepCursor {
    next_step_index: usize,
}

impl StepCursor {
    /// The index the cursor will hand out next.
    pub closed spec fn index(self) -> int {
        self.next_step_index as int
    }

    /// A cursor resting at the start of the table.
    pub fn new() -> (c: StepCursor)
        ensures
            c.index() == 0,
    {
        StepCursor { next_step_index: 0 }
    }

    /// The cursor's current position, for inspection.
    pub fn position(&self) -> (r: usize)
        ensures
            r == self.index(),
    {
        self.next_step_index
    }

    /// Pure rotation: returns the current position against a table of
    /// `num_steps` steps and advances by one, wrapping to the start after the
    /// last step. Does not consider the enabled flag. A position left out of
    /// range by a shrunken step count restarts at the start of the table.
    pub fn next_step(&mut self, num_steps: usize) -> (r: usize)
        requires
            num_steps >= 1,
        ensures
            r == cursor_norm(old(self).index(), num_steps as int),
            final(self).index() == step_after(r as int, num_steps as int),
            r < num_steps,
    {
        let current: usize = if self.next_step_index < num_steps {
            self.next_step_index
        } else {
            0
        };
        if current + 1 >= num_steps {
            self.next_step_index = 0;
        } else {
            self.next_step_index = current + 1;
        }
        current
    }

    /// Bounded selection: rotates through the table, rejecting disabled
    /// steps, until an enabled step is found or the try budget is spent, in
    /// which case no step is available. The budget is one less than the step
    /// count, except that a table of one step has its only step tried once.
    pub fn select_step(&mut self, table: &StepTable) -> (r: Option<usize>)
        requires
            table.wf(),
        ensures
            (match r {
                Some(i) => Some(i as int),
                None => None::<int>,
            }) == scan(table@, cursor_norm(old(self).index(), table@.len() as int),
                try_budget(table@.len() as int)).0,
            final(self).index() == scan(table@,
                cursor_norm(old(self).index(), table@.len() as int),
                try_budget(table@.len() as int)).1,
            r matches Some(i) ==> i < table@.len() && table@[i as int].enabled,
    {
        let n = table.len();
        let budget: usize = if n <= 1 {
            1
        } else {
            n - 1
        };
        let mut tries: usize = 0;
        while tries < budget
            invariant
                table.wf(),
                n == table@.len(),
                1 <= n,
                budget == try_budget(n as int),
                tries <= budget,
                scan(table@, cursor_norm(old(self).index(), n as int), try_budget(n as int))
                    == scan(table@, cursor_norm(self.index(), n as int),
                        (budget - tries) as nat),
                tries > 0 ==> 0 <= self.index() < n,
            decreases budget - tries,
        {
            let i = self.next_step(n);
            if table.is_enabled(i) {
                return Some(i);
            }
            tries = tries + 1;
        }
        None
    }
}

/// Every bounded search is sound: a found index lies within the table and
/// names an enabled step, the cursor comes to rest within the table, and a
/// search that finds nothing probed only disabled steps.
pub proof fn lemma_scan_sound(steps: Seq<Step>, index: int, tries: nat)
    requires
        steps.len() >= 1,
        0 <= index < steps.len(),
    ensures
        ({
            let sc = scan(steps, index, tries);
            &&& (sc.0 matches Some(i) ==> 0 <= i < steps.len() && steps[i].enabled)
            &&& 0 <= sc.1 < steps.len()
            &&& (tries > 0 ==> sc.0 is None ==> forall|k: int|
                0 <= k < tries ==> !steps[probe_index(index, k, steps.len() as int)].enabled)
        }),
    decreases tries,
{
    let n = steps.len() as int;
    if tries == 0 {
    } else {
        let next = step_after(index, n);
        if steps[index].enabled {
        } else {
            lemma_scan_sound(steps, next, (tries - 1) as nat);
            let sc = scan(steps, index, tries);
            if sc.0 is None {
                assert forall|k: int| 0 <= k < tries implies
                    !steps[probe_index(index, k, n)].enabled by {
                    if k == 0 {
                        assert(probe_index(index, 0, n) == index) by {
                            vstd::arithmetic::div_mod::lemma_small_mod(index as nat, n as nat);
                        }
                    } else {
                        assert(!steps[probe_index(next, k - 1, n)].enabled);
                        assert(probe_index(next, k - 1, n) == probe_index(index, k, n)) by {
                            if index + 1 >= n {
                                assert(next == 0);
                                assert(index == n - 1);
                                assert((k - 1 + n) % n == (k - 1) % n) by {
                                    vstd::arithmetic::div_mod::lemma_mod_add_multiples_vanish(
                                        k - 1, n);
                                }
                            } else {
                                assert(next == index + 1);
                            }
                        }
                    }
                }
            }
        }
    }
}

/// Bounded selection is complete as far as its budget reaches: over a table
/// of `n` steps it finds nothing exactly when every step is disabled,
/// provided the one position its budget cannot reach — the step just before
/// the starting position — is not the only enabled step. (With a budget of
/// `n - 1` the probes cover every position but that one; a table of one step
/// is covered whole.)
pub proof fn lemma_select_none_iff_all_disabled(steps: Seq<Step>, start: int)
    requires
        steps.len() >= 1,
        0 <= start < steps.len(),
        steps.len() >= 2 && steps[(start + steps.len() - 1) % steps.len() as int].enabled
            ==> exists|j: int| 0 <= j < steps.len()
                && j != (start + steps.len() - 1) % steps.len() as int && steps[j].enabled,
    ensures
        scan(steps, start, try_budget(steps.len() as int)).0 is None
            <==> forall|j: int| 0 <= j < steps.len() ==> !steps[j].enabled,
{
    let n = steps.len() as int;
    let b = try_budget(n);
    let sc = scan(steps, start, b);
    lemma_scan_sound(steps, start, b);
    if sc.0 is None {
        // Every probed position is disabled; the probes reach every index of
        // the table except, for n >= 2, the one just before the start.
        let skipped = (start + n - 1) % n;
        assert forall|j: int| 0 <= j < n && j != skipped implies !steps[j].enabled by {
            let k = if j >= start {
                j - start
            } else {
                j - start + n
            };
            assert(probe_index(start, k, n) == j) by {
                if j >= start {
                    vstd::arithmetic::div_mod::lemma_small_mod(j as nat, n as nat);
                } else {
                    vstd::arithmetic::div_mod::lemma_mod_add_multiples_vanish(j, n);
                    vstd::arithmetic::div_mod::lemma_small_mod(j as nat, n as nat);
                }
            }
            assert(0 <= k < n);
            if n == 1 {
                assert(k == 0 && k < b);
            } else {
                assert(b == n - 1);
                if k == n - 1 {
                    // j would be the skipped position.
                    if j >= start {
                        assert(j == start + n - 1);
                        assert(j < n);
                        assert(start <= 0);
                        assert(start == 0);
                        assert(j == n - 1);
                        assert(skipped == (n - 1) % n);
                        vstd::arithmetic::div_mod::lemma_small_mod((n - 1) as nat, n as nat);
                        assert(false);
                    } else {
                        assert(j == start - 1);
                        assert(skipped == (start - 1 + n) % n);
                        vstd::arithmetic::div_mod::lemma_mod_add_multiples_vanish(start - 1, n);
                        vstd::arithmetic::div_mod::lemma_small_mod((start - 1) as nat, n as nat);
                        assert(false);
                    }
                }
                assert(k < b);
            }
            assert(!steps[probe_index(start, k, n)].enabled);
        }
        if n >= 2 && steps[skipped].enabled {
            let j = choose|j: int| 0 <= j < n && j != skipped && steps[j].enabled;
            assert(!steps[j].enabled);
            assert(false);
        }
        if n >= 2 {
            assert(0 <= skipped < n) by {
                vstd::arithmetic::div_mod::lemma_mod_bound(start + n - 1, n);
            }
        }
    } else {
        let i = sc.0->Some_0;
        assert(steps[i].enabled);
    }
}

} // verus!
