//! The Transition Tracker: a table of "was this physical input down at its
//! last observation", shared by every binding in the process, which turns
//! level polling into exactly-once press and release events.
//!
//! The tracker is an owned context object. A host creates one at startup and
//! threads it (behind its own mutual exclusion, if polled from several
//! threads) through every edge query; each call is a single atomic
//! check-and-update of the table.

use vstd::prelude::*;
use std::collections::HashMap;

verus! {

broadcast use vstd::std_specs::hash::group_hash_axioms;

/// Whether the table `m` records the code `c` as down at its last observation.
/// An absent record reads as "was up".
pub open spec fn spec_recorded(m: Map<i32, bool>, c: i32) -> bool {
    m.contains_key(c) && m[c]
}

/// Whether observing level `is_down` for code `c` against table `m` fires a
/// press event: the input is down now and was not recorded as down.
pub open spec fn press_fires(m: Map<i32, bool>, c: i32, is_down: bool) -> bool {
    is_down && !spec_recorded(m, c)
}

/// The table after a press observation of code `c` at level `is_down`.
pub open spec fn press_step(m: Map<i32, bool>, c: i32, is_down: bool) -> Map<i32, bool> {
    if press_fires(m, c, is_down) {
        m.insert(c, true)
    } else {
        m
    }
}

/// Whether observing level `is_down` for code `c` against table `m` fires a
/// release event: the input is up now and was recorded as down.
pub open spec fn release_fires(m: Map<i32, bool>, c: i32, is_down: bool) -> bool {
    !is_down && spec_recorded(m, c)
}

/// The table after a release observation of code `c` at level `is_down`. A
/// fired release erases the record, keeping the table bounded to
/// currently-or-recently-down codes.
pub open spec fn release_step(m: Map<i32, bool>, c: i32, is_down: bool) -> Map<i32, bool> {
    if release_fires(m, c, is_down) {
        m.remove(c)
    } else {
        m
    }
}

/// Process-wide transition state: for each physical input code, whether it
/// was down as of its last observation. Records are created lazily on the
/// first observed press and erased on the observed release.
pub struct TransitionTracker {
    table: HashMap<i32, bool>,
}

impl View for TransitionTracker {
    type V = Map<i32, bool>;

    closed spec fn view(&self) -> Map<i32, bool> {
        self.table@
    }
}

impl TransitionTracker {
    /// Whether this tracker records code `c` as down at its last observation.
    pub open spec fn recorded(&self, c: i32) -> bool {
        spec_recorded(self@, c)
    }

    /// Creates a tracker with no observations yet: every code reads as
    /// "was up".
    pub fn new() -> (t: TransitionTracker)
        ensures
            t@ == Map::<i32, bool>::empty(),
    {
        TransitionTracker { table: HashMap::new() }
    }

    /// Observes the current level of `code` and reports a press edge:
    /// true exactly when the input is down now and its record was absent or
    /// up, in which case the record is set to down in the same step.
    pub fn observe_press(&mut self, code: i32, is_down: bool) -> (fired: bool)
        ensures
            fired == press_fires(old(self)@, code, is_down),
            final(self)@ == press_step(old(self)@, code, is_down),
    {
        let was_down = match self.table.get(&code) {
            Some(b) => *b,
            None => false,
        };
        if is_down && !was_down {
            self.table.insert(code, true);
            true
        } else {
            false
        }
    }

    /// Observes the current level of `code` and reports a release edge:
    /// true exactly when the input is up now and its record was down, in
    /// which case the record is erased in the same step.
    pub fn observe_release(&mut self, code: i32, is_down: bool) -> (fired: bool)
        ensures
            fired == release_fires(old(self)@, code, is_down),
            final(self)@ == release_step(old(self)@, code, is_down),
    {
        let was_down = match self.table.get(&code) {
            Some(b) => *b,
            None => false,
        };
        if !is_down && was_down {
            self.table.remove(&code);
            true
        } else {
            false
        }
    }

    /// Erases the record of `code`, as a rebind does for the target it is
    /// leaving: the next observation of `code` starts from "was up".
    pub fn forget(&mut self, code: i32)
        ensures
            final(self)@ == old(self)@.remove(code),
    {
        self.table.remove(&code);
    }
}

} // verus!
