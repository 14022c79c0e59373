use vstd::prelude::*;
use crate::keys::{HeldKeys, KeyAction};
use crate::palette::{lower_then_raise, lower_then_raise_u32, raise_then_lower, raise_then_lower_i64, Palette};

verus! {

/// Pixel size of the presentation surface.
#[derive(Clone, Copy, Debug, PartialEq, Eq, Structural)]
pub struct SurfaceSize {
    pub width: u32,
    pub height: u32,
}

/// Iteration budget a session starts with.
pub const INITIAL_ITERATIONS: u32 = 100;

/// The exact part of the explorer's parameter state.
///
/// The visible window is `view_center ± view_extent` with
/// `view_extent = (e, e * height / width)` and `e = 2 * 0.99^zoom_level`: each
/// tick of "zoom in" adds one to `zoom_level`, each tick of "zoom out" takes one
/// away, and a resize keeps `e` and takes the new aspect ratio.
#[derive(Clone, Copy, Debug, PartialEq, Eq)]
pub struct Controls {
    /// The controls currently held.
    pub held: HeldKeys,
    /// Number of net zoom-in steps taken.
    pub zoom_level: i64,
    /// Colour coefficients and colour mode.
    pub palette: Palette,
    /// Escape-iteration budget; never below 1.
    pub iteration_count: u32,
    /// Last non-empty size of the surface.
    pub size: SurfaceSize,
}

impl Controls {
    /// The state invariant: tones within their mode's bound, at least one
    /// iteration, a surface of positive area.
    pub open spec fn wf(self) -> bool {
        &&& self.palette.wf()
        &&& self.iteration_count >= 1
        &&& self.size.width > 0
        &&& self.size.height > 0
    }

    /// The state after one fixed-rate tick.
    pub open spec fn ticked(self) -> Controls {
        let held = self.held@;
        Controls {
            held: self.held,
            zoom_level: raise_then_lower(
                self.zoom_level as int,
                held.contains(KeyAction::ZoomIn),
                held.contains(KeyAction::ZoomOut),
                i64::MIN as int,
                i64::MAX as int,
            ) as i64,
            palette: self.palette.ticked(held),
            iteration_count: lower_then_raise(
                self.iteration_count as int,
                held.contains(KeyAction::FewerIterations),
                held.contains(KeyAction::MoreIterations),
                1,
                u32::MAX as int,
            ) as u32,
            size: self.size,
        }
    }

    /// The state after switching colour mode.
    pub open spec fn color_toggled(self) -> Controls {
        Controls { palette: self.palette.toggled(), ..self }
    }

    /// The state after a resize notification: applied only when both sides
    /// are positive.
    pub open spec fn resized(self, width: u32, height: u32) -> Controls {
        if width > 0 && height > 0 {
            Controls { size: SurfaceSize { width, height }, ..self }
        } else {
            self
        }
    }

    /// The state with a control held or released, all else kept.
    pub open spec fn with_key(self, action: KeyAction, pressed: bool) -> Controls {
        Controls { held: self.held.with(action, pressed), ..self }
    }

    /// The starting state for a surface of `width` by `height` pixels.
    pub fn new(width: u32, height: u32) -> (r: Controls)
        requires
            width > 0,
            height > 0,
        ensures
            r.wf(),
            r.held@ == Set::<KeyAction>::empty(),
            r.zoom_level == 0,
            r.palette == (Palette { base: 330, drift: -30i64, tone_a: 20, tone_b: 100, inverted: false }),
            r.iteration_count == INITIAL_ITERATIONS,
            r.size == (SurfaceSize { width, height }),
    {
        Controls {
            held: HeldKeys::new(),
            zoom_level: 0,
            palette: Palette::initial(),
            iteration_count: INITIAL_ITERATIONS,
            size: SurfaceSize { width, height },
        }
    }

    /// Marks a control as held or released; nothing else changes.
    pub fn set_key(&mut self, action: KeyAction, pressed: bool)
        ensures
            *final(self) == old(self).with_key(action, pressed),
            final(self).held@ == (if pressed {
                old(self).held@.insert(action)
            } else {
                old(self).held@.remove(action)
            }),
            final(self).zoom_level == old(self).zoom_level,
            final(self).palette == old(self).palette,
            final(self).iteration_count == old(self).iteration_count,
            final(self).size == old(self).size,
    {
        self.held.set_key(action, pressed);
    }

    /// Whether a control is held.
    pub fn is_held(&self, action: KeyAction) -> (r: bool)
        ensures
            r == self.held@.contains(action),
    {
        self.held.is_held(action)
    }

    /// Switches colour mode, negating the two bounded tones.
    pub fn toggle_color_mode(&mut self)
        requires
            old(self).wf(),
        ensures
            *final(self) == old(self).color_toggled(),
            final(self).wf(),
    {
        self.palette.toggle();
    }

    /// Applies one fixed-rate tick: every held control takes its step, all
    /// within this one call.
    pub fn tick(&mut self)
        requires
            old(self).wf(),
        ensures
            *final(self) == old(self).ticked(),
            final(self).wf(),
    {
        let zoom_in = self.held.is_held(KeyAction::ZoomIn);
        let zoom_out = self.held.is_held(KeyAction::ZoomOut);
        self.zoom_level = raise_then_lower_i64(self.zoom_level, zoom_in, zoom_out, i64::MIN, i64::MAX);
        let held = self.held;
        self.palette.tick(&held);
        let fewer = self.held.is_held(KeyAction::FewerIterations);
        let more = self.held.is_held(KeyAction::MoreIterations);
        self.iteration_count = lower_then_raise_u32(self.iteration_count, fewer, more, 1, u32::MAX);
    }

    /// Takes a new surface size; a size with an empty side is ignored.
    /// Returns whether the size was taken (and the surface must be
    /// reconfigured).
    pub fn resize(&mut self, width: u32, height: u32) -> (applied: bool)
        requires
            old(self).wf(),
        ensures
            applied == (width > 0 && height > 0),
            *final(self) == old(self).resized(width, height),
            final(self).wf(),
    {
        if width > 0 && height > 0 {
            self.size = SurfaceSize { width, height };
            true
        } else {
            false
        }
    }
}

} // verus!
