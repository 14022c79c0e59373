use vstd::prelude::*;
use crate::controls::Controls;
use crate::keys::KeyAction;

verus! {

/// A physical keyboard key, as far as the explorer tells keys apart.
#[derive(Clone, Copy, Debug, PartialEq, Eq, Structural)]
pub enum Key {
    Up,
    Left,
    Down,
    Right,
    W,
    A,
    S,
    D,
    C,
    X,
    T,
    Y,
    G,
    H,
    O,
    I,
    L,
    K,
    N,
    M,
    Return,
    Escape,
    /// Any key without a binding.
    Other,
}

/// The continuous control a key is bound to, if any.
pub open spec fn binding(key: Key) -> Option<KeyAction> {
    match key {
        Key::Up => Some(KeyAction::JuliaUp),
        Key::Left => Some(KeyAction::JuliaLeft),
        Key::Down => Some(KeyAction::JuliaDown),
        Key::Right => Some(KeyAction::JuliaRight),
        Key::W => Some(KeyAction::PanUp),
        Key::A => Some(KeyAction::PanLeft),
        Key::S => Some(KeyAction::PanDown),
        Key::D => Some(KeyAction::PanRight),
        Key::C => Some(KeyAction::ZoomIn),
        Key::X => Some(KeyAction::ZoomOut),
        Key::T => Some(KeyAction::BasePlus),
        Key::Y => Some(KeyAction::BaseMinus),
        Key::G => Some(KeyAction::DriftPlus),
        Key::H => Some(KeyAction::DriftMinus),
        Key::O => Some(KeyAction::ToneAPlus),
        Key::I => Some(KeyAction::ToneAMinus),
        Key::L => Some(KeyAction::ToneBPlus),
        Key::K => Some(KeyAction::ToneBMinus),
        Key::N => Some(KeyAction::FewerIterations),
        Key::M => Some(KeyAction::MoreIterations),
        _ => None,
    }
}

impl Key {
    /// The continuous control this key is bound to, if any.
    pub fn binding(self) -> (r: Option<KeyAction>)
        ensures
            r == binding(self),
    {
        match self {
            Key::Up => Some(KeyAction::JuliaUp),
            Key::Left => Some(KeyAction::JuliaLeft),
            Key::Down => Some(KeyAction::JuliaDown),
            Key::Right => Some(KeyAction::JuliaRight),
            Key::W => Some(KeyAction::PanUp),
            Key::A => Some(KeyAction::PanLeft),
            Key::S => Some(KeyAction::PanDown),
            Key::D => Some(KeyAction::PanRight),
            Key::C => Some(KeyAction::ZoomIn),
            Key::X => Some(KeyAction::ZoomOut),
            Key::T => Some(KeyAction::BasePlus),
            Key::Y => Some(KeyAction::BaseMinus),
            Key::G => Some(KeyAction::DriftPlus),
            Key::H => Some(KeyAction::DriftMinus),
            Key::O => Some(KeyAction::ToneAPlus),
            Key::I => Some(KeyAction::ToneAMinus),
            Key::L => Some(KeyAction::ToneBPlus),
            Key::K => Some(KeyAction::ToneBMinus),
            Key::N => Some(KeyAction::FewerIterations),
            Key::M => Some(KeyAction::MoreIterations),
            _ => None,
        }
    }

    /// Whether this key event asks to leave the explorer: a press of Escape.
    /// The caller consults it only for events that `Controls::input` did not
    /// consume.
    pub fn is_exit(self, pressed: bool) -> (r: bool)
        ensures
            r == (self == Key::Escape && pressed),
    {
        match self {
            Key::Escape => pressed,
            _ => false,
        }
    }
}

/// Whether a key is consumed by the control table: a bound control or the
/// colour-mode toggle.
pub open spec fn consumes(key: Key) -> bool {
    binding(key) is Some || key == Key::Return
}

impl Controls {
    /// The state after a key event: a bound key holds or releases its
    /// control, a press of Return switches colour mode, any other event
    /// changes nothing.
    pub open spec fn after_key(self, key: Key, pressed: bool) -> Controls {
        match binding(key) {
            Some(action) => self.with_key(action, pressed),
            None => if key == Key::Return && pressed {
                self.color_toggled()
            } else {
                self
            },
        }
    }

    /// Routes a key event into the control table. Returns whether the event
    /// was consumed; an unconsumed event is left to the caller's own
    /// handling.
    pub fn input(&mut self, key: Key, pressed: bool) -> (consumed: bool)
        requires
            old(self).wf(),
        ensures
            consumed == consumes(key),
            *final(self) == old(self).after_key(key, pressed),
            (match binding(key) {
                Some(action) => final(self).held@ == (if pressed {
                    old(self).held@.insert(action)
                } else {
                    old(self).held@.remove(action)
                }),
                None => final(self).held == old(self).held,
            }),
            final(self).wf(),
    {
        match key.binding() {
            Some(action) => {
                self.set_key(action, pressed);
                true
            },
            None => match key {
                Key::Return => {
                    if pressed {
                        self.toggle_color_mode();
                    }
                    true
                },
                _ => false,
            },
        }
    }
}

} // verus!
