use vstd::prelude::*;
use crate::controls::Controls;
use crate::keys::KeyAction;
use crate::palette::{lemma_tick_keeps_tones_bounded, lemma_toggle_twice, tone_ceiling, tone_floor};

verus! {

/// One operation on the control state, as the driver issues them.
#[derive(Clone, Copy, Debug, PartialEq, Eq, Structural)]
pub enum Step {
    /// Hold (`true`) or release (`false`) a control.
    SetKey(KeyAction, bool),
    /// Switch colour mode.
    ToggleColor,
    /// One fixed-rate tick.
    Tick,
    /// A resize notification.
    Resize(u32, u32),
}

/// The state after one operation.
pub open spec fn apply(s: Controls, step: Step) -> Controls {
    match step {
        Step::SetKey(action, pressed) => s.with_key(action, pressed),
        Step::ToggleColor => s.color_toggled(),
        Step::Tick => s.ticked(),
        Step::Resize(width, height) => s.resized(width, height),
    }
}

/// The state after a sequence of operations, first to last.
pub open spec fn run(s: Controls, steps: Seq<Step>) -> Controls
    decreases steps.len(),
{
    if steps.len() == 0 {
        s
    } else {
        run(apply(s, steps[0]), steps.drop_first())
    }
}

/// The state after `n` ticks with the same controls held.
pub open spec fn ticks(s: Controls, n: nat) -> Controls
    decreases n,
{
    if n == 0 {
        s
    } else {
        ticks(s.ticked(), (n - 1) as nat)
    }
}

/// Every operation keeps the state invariant.
pub proof fn lemma_apply_keeps_wf(s: Controls, step: Step)
    requires
        s.wf(),
    ensures
        apply(s, step).wf(),
{
    match step {
        Step::Tick => lemma_tick_keeps_tones_bounded(s.palette, s.held@),
        Step::ToggleColor => lemma_toggle_twice(s.palette),
        _ => {},
    }
}

/// Any sequence of key changes, colour toggles, ticks and resizes keeps the
/// state invariant.
pub proof fn lemma_run_keeps_wf(s: Controls, steps: Seq<Step>)
    requires
        s.wf(),
    ensures
        run(s, steps).wf(),
    decreases steps.len(),
{
    if steps.len() > 0 {
        lemma_apply_keeps_wf(s, steps[0]);
        lemma_run_keeps_wf(apply(s, steps[0]), steps.drop_first());
    }
}

/// The surface size stays positive on both sides under any sequence of
/// operations, so the aspect ratio of the view extent stays defined and
/// positive.
pub proof fn lemma_surface_stays_nonempty(s: Controls, steps: Seq<Step>)
    requires
        s.wf(),
    ensures
        run(s, steps).size.width > 0,
        run(s, steps).size.height > 0,
{
    lemma_run_keeps_wf(s, steps);
}

/// The iteration budget never drops below 1 under any sequence of
/// operations.
pub proof fn lemma_iterations_stay_positive(s: Controls, steps: Seq<Step>)
    requires
        s.wf(),
    ensures
        run(s, steps).iteration_count >= 1,
{
    lemma_run_keeps_wf(s, steps);
}

/// Asking for fewer iterations at a budget of 1 leaves it at 1.
pub proof fn lemma_fewer_iterations_at_floor(s: Controls)
    requires
        s.wf(),
        s.iteration_count == 1,
        !s.held@.contains(KeyAction::MoreIterations),
    ensures
        s.ticked().iteration_count == 1,
{
}

/// Under any sequence of operations the two bounded tones stay within
/// `[0, 1]` in the plain mode and within `[-1, 0]` in the inverted mode.
pub proof fn lemma_tones_stay_bounded(s: Controls, steps: Seq<Step>)
    requires
        s.wf(),
    ensures
        ({
            let p = run(s, steps).palette;
            &&& tone_floor(p.inverted) <= p.tone_a <= tone_ceiling(p.inverted)
            &&& tone_floor(p.inverted) <= p.tone_b <= tone_ceiling(p.inverted)
        }),
{
    lemma_run_keeps_wf(s, steps);
}

/// Switching colour mode twice with no tick between restores the state.
pub proof fn lemma_toggle_twice_restores(s: Controls)
    requires
        s.wf(),
    ensures
        s.color_toggled().color_toggled() == s,
{
    lemma_toggle_twice(s.palette);
}

/// A resize with an empty side leaves the whole state, and so the view
/// extent, unchanged.
pub proof fn lemma_empty_resize_changes_nothing(s: Controls, width: u32, height: u32)
    requires
        width == 0 || height == 0,
    ensures
        s.resized(width, height) == s,
{
}

/// Holding only "zoom in" for `n` ticks adds `n` to the zoom level.
pub proof fn lemma_zoom_in_ticks(s: Controls, n: nat)
    requires
        s.held@ == set![KeyAction::ZoomIn],
        s.zoom_level + n <= i64::MAX,
    ensures
        ticks(s, n).zoom_level == s.zoom_level + n,
        ticks(s, n).held == s.held,
    decreases n,
{
    if n > 0 {
        lemma_zoom_in_ticks(s.ticked(), (n - 1) as nat);
    }
}

/// Holding only "zoom out" for `n` ticks takes `n` from the zoom level.
pub proof fn lemma_zoom_out_ticks(s: Controls, n: nat)
    requires
        s.held@ == set![KeyAction::ZoomOut],
        s.zoom_level - n >= i64::MIN,
    ensures
        ticks(s, n).zoom_level == s.zoom_level - n,
        ticks(s, n).held == s.held,
    decreases n,
{
    if n > 0 {
        lemma_zoom_out_ticks(s.ticked(), (n - 1) as nat);
    }
}

/// Zooming in for `n` ticks and then out for `n` ticks returns to the zoom
/// level, and so the view extent, that the state started with.
pub proof fn lemma_zoom_round_trip(s: Controls, n: nat)
    requires
        s.held@ == set![KeyAction::ZoomIn],
        s.zoom_level + n <= i64::MAX,
    ensures
        ({
            let zoomed = ticks(s, n);
            let back = ticks(
                zoomed.with_key(KeyAction::ZoomIn, false).with_key(KeyAction::ZoomOut, true),
                n,
            );
            back.zoom_level == s.zoom_level
        }),
{
    lemma_zoom_in_ticks(s, n);
    let zoomed = ticks(s, n);
    let turned = zoomed.with_key(KeyAction::ZoomIn, false).with_key(KeyAction::ZoomOut, true);
    zoomed.held.lemma_with(KeyAction::ZoomIn, false);
    zoomed.held.with(KeyAction::ZoomIn, false).lemma_with(KeyAction::ZoomOut, true);
    assert(turned.held@ =~= set![KeyAction::ZoomOut]);
    lemma_zoom_out_ticks(turned, n);
}

} // verus!
