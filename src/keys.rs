use vstd::prelude::*;

verus! {

/// One of the twenty continuous controls that stay active while held.
#[derive(Clone, Copy, Debug, PartialEq, Eq, Structural)]
pub enum KeyAction {
    JuliaUp,
    JuliaLeft,
    JuliaDown,
    JuliaRight,
    PanUp,
    PanLeft,
    PanDown,
    PanRight,
    ZoomIn,
    ZoomOut,
    BasePlus,
    BaseMinus,
    DriftPlus,
    DriftMinus,
    ToneAPlus,
    ToneAMinus,
    ToneBPlus,
    ToneBMinus,
    FewerIterations,
    MoreIterations,
}

/// Number of continuous controls.
pub const ACTION_COUNT: usize = 20;

/// Position of an action in the held-key table.
pub open spec fn slot(a: KeyAction) -> int {
    match a {
        KeyAction::JuliaUp => 0,
        KeyAction::JuliaLeft => 1,
        KeyAction::JuliaDown => 2,
        KeyAction::JuliaRight => 3,
        KeyAction::PanUp => 4,
        KeyAction::PanLeft => 5,
        KeyAction::PanDown => 6,
        KeyAction::PanRight => 7,
        KeyAction::ZoomIn => 8,
        KeyAction::ZoomOut => 9,
        KeyAction::BasePlus => 10,
        KeyAction::BaseMinus => 11,
        KeyAction::DriftPlus => 12,
        KeyAction::DriftMinus => 13,
        KeyAction::ToneAPlus => 14,
        KeyAction::ToneAMinus => 15,
        KeyAction::ToneBPlus => 16,
        KeyAction::ToneBMinus => 17,
        KeyAction::FewerIterations => 18,
        KeyAction::MoreIterations => 19,
    }
}

/// The action stored at a position of the held-key table.
pub open spec fn action_at(i: int) -> KeyAction {
    if i == 0 {
        KeyAction::JuliaUp
    } else if i == 1 {
        KeyAction::JuliaLeft
    } else if i == 2 {
        KeyAction::JuliaDown
    } else if i == 3 {
        KeyAction::JuliaRight
    } else if i == 4 {
        KeyAction::PanUp
    } else if i == 5 {
        KeyAction::PanLeft
    } else if i == 6 {
        KeyAction::PanDown
    } else if i == 7 {
        KeyAction::PanRight
    } else if i == 8 {
        KeyAction::ZoomIn
    } else if i == 9 {
        KeyAction::ZoomOut
    } else if i == 10 {
        KeyAction::BasePlus
    } else if i == 11 {
        KeyAction::BaseMinus
    } else if i == 12 {
        KeyAction::DriftPlus
    } else if i == 13 {
        KeyAction::DriftMinus
    } else if i == 14 {
        KeyAction::ToneAPlus
    } else if i == 15 {
        KeyAction::ToneAMinus
    } else if i == 16 {
        KeyAction::ToneBPlus
    } else if i == 17 {
        KeyAction::ToneBMinus
    } else if i == 18 {
        KeyAction::FewerIterations
    } else {
        KeyAction::MoreIterations
    }
}

/// Every action has its own slot, so the table keys actions one to one.
pub proof fn lemma_slot_inverse(a: KeyAction)
    ensures
        0 <= slot(a) < ACTION_COUNT,
        action_at(slot(a)) == a,
{
}

/// Unit direction in which a pan or Julia-constant action moves its point
/// (y grows downward on the keyboard, as the arrow keys read); `(0, 0)` for
/// every other action.
pub open spec fn direction(a: KeyAction) -> (int, int) {
    match a {
        KeyAction::JuliaUp | KeyAction::PanUp => (0, -1),
        KeyAction::JuliaLeft | KeyAction::PanLeft => (-1, 0),
        KeyAction::JuliaDown | KeyAction::PanDown => (0, 1),
        KeyAction::JuliaRight | KeyAction::PanRight => (1, 0),
        _ => (0, 0),
    }
}

impl KeyAction {
    /// Position of this action in the held-key table.
    pub fn slot(self) -> (r: usize)
        ensures
            r as int == slot(self),
            r < ACTION_COUNT,
    {
        match self {
            KeyAction::JuliaUp => 0,
            KeyAction::JuliaLeft => 1,
            KeyAction::JuliaDown => 2,
            KeyAction::JuliaRight => 3,
            KeyAction::PanUp => 4,
            KeyAction::PanLeft => 5,
            KeyAction::PanDown => 6,
            KeyAction::PanRight => 7,
            KeyAction::ZoomIn => 8,
            KeyAction::ZoomOut => 9,
            KeyAction::BasePlus => 10,
            KeyAction::BaseMinus => 11,
            KeyAction::DriftPlus => 12,
            KeyAction::DriftMinus => 13,
            KeyAction::ToneAPlus => 14,
            KeyAction::ToneAMinus => 15,
            KeyAction::ToneBPlus => 16,
            KeyAction::ToneBMinus => 17,
            KeyAction::FewerIterations => 18,
            KeyAction::MoreIterations => 19,
        }
    }

    /// Unit step of a pan or Julia-constant action, `(0, 0)` for the others.
    pub fn direction(self) -> (r: (i32, i32))
        ensures
            (r.0 as int, r.1 as int) == direction(self),
    {
        match self {
            KeyAction::JuliaUp | KeyAction::PanUp => (0, -1),
            KeyAction::JuliaLeft | KeyAction::PanLeft => (-1, 0),
            KeyAction::JuliaDown | KeyAction::PanDown => (0, 1),
            KeyAction::JuliaRight | KeyAction::PanRight => (1, 0),
            _ => (0, 0),
        }
    }
}

/// The set of controls currently held, as a flat table with one slot per
/// action.
#[derive(Clone, Copy, Debug, PartialEq, Eq)]
pub struct HeldKeys {
    slots: [bool; 20],
}

impl View for HeldKeys {
    type V = Set<KeyAction>;

    closed spec fn view(&self) -> Set<KeyAction> {
        Set::new(|a: KeyAction| self.slots@[slot(a)])
    }
}

impl HeldKeys {
    /// The table with `action` held or released, all other slots kept.
    pub closed spec fn with(self, action: KeyAction, pressed: bool) -> HeldKeys {
        HeldKeys { slots: vstd::array::spec_array_update(self.slots, slot(action), pressed) }
    }

    /// What holding or releasing one action does to the set of held controls.
    pub proof fn lemma_with(self, action: KeyAction, pressed: bool)
        ensures
            self.with(action, pressed)@ == (if pressed {
                self@.insert(action)
            } else {
                self@.remove(action)
            }),
    {
        lemma_slot_inverse(action);
        let w = self.with(action, pressed);
        assert(w.slots@ == self.slots@.update(slot(action), pressed));
        assert forall|a: KeyAction| a != action implies slot(a) != slot(action) by {
            lemma_slot_inverse(a);
        }
        if pressed {
            assert(w@ =~= self@.insert(action));
        } else {
            assert(w@ =~= self@.remove(action));
        }
    }

    /// A table with nothing held.
    pub fn new() -> (r: HeldKeys)
        ensures
            r@ == Set::<KeyAction>::empty(),
    {
        let r = HeldKeys { slots: [false; 20] };
        assert(r@ =~= Set::<KeyAction>::empty());
        r
    }

    /// Whether `action` is held.
    pub fn is_held(&self, action: KeyAction) -> (r: bool)
        ensures
            r == self@.contains(action),
    {
        self.slots[action.slot()]
    }

    /// Marks `action` as held or released; idempotent, touches no other
    /// action.
    pub fn set_key(&mut self, action: KeyAction, pressed: bool)
        ensures
            *final(self) == old(self).with(action, pressed),
            final(self)@ == (if pressed {
                old(self)@.insert(action)
            } else {
                old(self)@.remove(action)
            }),
    {
        let i = action.slot();
        self.slots[i] = pressed;
        proof {
            old(self).lemma_with(action, pressed);
        }
    }
}

} // verus!
