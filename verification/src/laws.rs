//! Laws of the edge-detection state machine and of the binding variants,
//! stated over the same spec functions the executable contracts use.

use vstd::prelude::*;
use crate::keycodes::spec_keyboard_keycode;
use crate::keys::Key;
use crate::keys::Modifiers;
use crate::keys::spec_key_label;
use crate::target::BindTarget;
use crate::target::spec_modifier_prefix;
use crate::tracker::press_fires;
use crate::tracker::press_step;
use crate::tracker::release_fires;
use crate::tracker::release_step;
use crate::tracker::spec_recorded;

verus! {

/// One polling tick for code `c` at level `lvl`: a press observation followed
/// by a release observation, both against the level read that tick.
pub open spec fn tick_step(m: Map<i32, bool>, c: i32, lvl: bool) -> Map<i32, bool> {
    release_step(press_step(m, c, lvl), c, lvl)
}

/// The table after ticking code `c` once per entry of the level sequence
/// `lvls`, in order.
pub open spec fn run(m: Map<i32, bool>, c: i32, lvls: Seq<bool>) -> Map<i32, bool>
    decreases lvls.len(),
{
    if lvls.len() == 0 {
        m
    } else {
        tick_step(run(m, c, lvls.drop_last()), c, lvls.last())
    }
}

/// After a full tick, the record of the ticked code equals the level that was
/// observed, whatever was recorded before.
pub proof fn lemma_tick_recorded(m: Map<i32, bool>, c: i32, lvl: bool)
    ensures
        spec_recorded(tick_step(m, c, lvl), c) == lvl,
{
}

/// After ticking through a level sequence, the record of the ticked code is
/// the last observed level; with no ticks it is what it was.
pub proof fn lemma_run_recorded(m: Map<i32, bool>, c: i32, lvls: Seq<bool>)
    ensures
        spec_recorded(run(m, c, lvls), c) == (if lvls.len() > 0 {
            lvls.last()
        } else {
            spec_recorded(m, c)
        }),
    decreases lvls.len(),
{
    if lvls.len() > 0 {
        lemma_run_recorded(m, c, lvls.drop_last());
        lemma_tick_recorded(run(m, c, lvls.drop_last()), c, lvls.last());
    }
}

/// Law (edge exactly-once): polling a code once per tick through any level
/// sequence, starting with no record of it, the press event fires at tick `i`
/// exactly when the level rose there, and the release event fires exactly
/// when it fell — one `true` per transition, however many bindings alias the
/// code, since all of them share the one table this law folds over.
pub proof fn lemma_edge_exactly_once(m: Map<i32, bool>, c: i32, lvls: Seq<bool>, i: int)
    requires
        !spec_recorded(m, c),
        0 <= i < lvls.len(),
    ensures
        press_fires(run(m, c, lvls.take(i)), c, lvls[i]) == (lvls[i] && (i == 0 || !lvls[i - 1])),
        release_fires(press_step(run(m, c, lvls.take(i)), c, lvls[i]), c, lvls[i]) == (!lvls[i] && i
            > 0 && lvls[i - 1]),
{
    lemma_run_recorded(m, c, lvls.take(i));
    if i > 0 {
        assert(lvls.take(i).last() == lvls[i - 1]);
    }
}

/// Law (shared debounce / linearizability of presses): once a press
/// observation fires for a code, no later press observation fires for that
/// code — at any level — until a release has been observed. Two callers
/// polling the same code in the same tick, or from two threads whose calls
/// the host serializes, therefore never both see `true` for one
/// down-transition.
pub proof fn lemma_press_fires_once(m: Map<i32, bool>, c: i32, d1: bool, d2: bool)
    ensures
        press_fires(m, c, d1) ==> !press_fires(press_step(m, c, d1), c, d2),
{
}

/// Law (aliasing): two set bindings that resolve to the same physical code
/// share one debounce: when a poll of the first fires the press, a poll of
/// the second against the resulting table, in the same tick and at the same
/// level, reports no press.
pub proof fn lemma_aliased_bindings_share_debounce<A: BindTarget, B: BindTarget>(
    a: &A,
    b: &B,
    m: Map<i32, bool>,
    is_down: bool,
)
    requires
        a.spec_set(),
        b.spec_set(),
        a.spec_code() == b.spec_code(),
        press_fires(m, a.spec_code(), is_down),
    ensures
        !press_fires(press_step(m, a.spec_code(), is_down), b.spec_code(), is_down),
{
}

/// Law (linearizability of releases): once a release observation fires for a
/// code, the record is gone, so no later release observation fires for that
/// code until a press has been observed again. Two serialized callers never
/// both see `true` for one up-transition.
pub proof fn lemma_release_fires_once(m: Map<i32, bool>, c: i32, d1: bool, d2: bool)
    ensures
        release_fires(m, c, d1) ==> !release_fires(release_step(m, c, d1), c, d2),
{
}

/// Law (assign round-trip): after a key assignment, a composite's label is
/// the modifier prefix, in fixed order, followed by the bare key's label; and
/// the composite resolves to the bare key's physical code, independent of the
/// modifiers — so by the contracts of `down`, `pressed` and `released` it
/// reports exactly the level and edges a bare key binding would.
pub proof fn lemma_composite_assign_round_trip(k: Key, m: Modifiers)
    ensures
        (<(Key, Modifiers) as BindTarget>::spec_after_key(k, m)).spec_label()
            == spec_modifier_prefix(m) + spec_key_label(k),
        (<(Key, Modifiers) as BindTarget>::spec_after_key(k, m)).spec_code() == (<Key as BindTarget>::spec_after_key(k, m)).spec_code(),
        (<Key as BindTarget>::spec_after_key(k, m)).spec_code() == spec_keyboard_keycode(k),
        (<(Key, Modifiers) as BindTarget>::spec_after_key(k, m)).spec_set() == (<Key as BindTarget>::spec_after_key(k, m)).spec_set(),
{
}

/// Law (unset default): an optional binding that is unset is not set, its
/// label is the sentinel "None", and by the contracts of `down`, `pressed`
/// and `released` every query on it returns false and leaves the tracker
/// unchanged.
pub proof fn lemma_optional_unset_reports_nothing<B: BindTarget>()
    ensures
        !(None::<(B, Modifiers)>).spec_set(),
        (None::<(B, Modifiers)>).spec_label() == "None"@,
{
}

/// Law (clear idempotence): `clear` leaves the single unset value whatever
/// the prior state was, so clearing twice leaves unset both times, and the
/// label is stable at the sentinel either time.
pub proof fn lemma_clear_idempotent<B: BindTarget>()
    ensures
        <Option<(B, Modifiers)> as BindTarget>::spec_cleared() == None::<(B, Modifiers)>,
        !(<Option<(B, Modifiers)> as BindTarget>::spec_cleared()).spec_set(),
        (<Option<(B, Modifiers)> as BindTarget>::spec_cleared()).spec_label() == "None"@,
{
}

} // verus!
