use vstd::prelude::*;
use crate::keys::{HeldKeys, KeyAction};

verus! {

/// One step up toward the ceiling `hi`: `min(x + 1, hi)`.
pub open spec fn raise(x: int, hi: int) -> int {
    if x + 1 < hi {
        x + 1
    } else {
        hi
    }
}

/// One step down toward the floor `lo`: `max(x - 1, lo)`.
pub open spec fn lower(x: int, lo: int) -> int {
    if x - 1 > lo {
        x - 1
    } else {
        lo
    }
}

/// A raising control applied first, then a lowering one, each only if held.
pub open spec fn raise_then_lower(x: int, up: bool, down: bool, lo: int, hi: int) -> int {
    let y = if up {
        raise(x, hi)
    } else {
        x
    };
    if down {
        lower(y, lo)
    } else {
        y
    }
}

/// A lowering control applied first, then a raising one, each only if held.
pub open spec fn lower_then_raise(x: int, down: bool, up: bool, lo: int, hi: int) -> int {
    let y = if down {
        lower(x, lo)
    } else {
        x
    };
    if up {
        raise(y, hi)
    } else {
        y
    }
}

/// Both orders of stepping keep a value that starts inside `[lo, hi]` there.
pub proof fn lemma_steps_stay_within(x: int, up: bool, down: bool, lo: int, hi: int)
    ensures
        lo <= x <= hi ==> lo <= raise_then_lower(x, up, down, lo, hi) <= hi,
        lo <= x <= hi ==> lo <= lower_then_raise(x, down, up, lo, hi) <= hi,
{
}

pub fn raise_then_lower_i64(x: i64, up: bool, down: bool, lo: i64, hi: i64) -> (r: i64)
    ensures
        r == raise_then_lower(x as int, up, down, lo as int, hi as int),
{
    let mut y = x;
    if up {
        y = if y < hi {
            y + 1
        } else {
            hi
        };
    }
    if down {
        y = if y > lo {
            y - 1
        } else {
            lo
        };
    }
    y
}

pub fn lower_then_raise_i64(x: i64, down: bool, up: bool, lo: i64, hi: i64) -> (r: i64)
    ensures
        r == lower_then_raise(x as int, down, up, lo as int, hi as int),
{
    let mut y = x;
    if down {
        y = if y > lo {
            y - 1
        } else {
            lo
        };
    }
    if up {
        y = if y < hi {
            y + 1
        } else {
            hi
        };
    }
    y
}

pub fn lower_then_raise_u32(x: u32, down: bool, up: bool, lo: u32, hi: u32) -> (r: u32)
    ensures
        r == lower_then_raise(x as int, down, up, lo as int, hi as int),
{
    let mut y = x;
    if down {
        y = if y > lo {
            y - 1
        } else {
            lo
        };
    }
    if up {
        y = if y < hi {
            y + 1
        } else {
            hi
        };
    }
    y
}

/// Fixed-point units of the two bounded tone dials and of the base dial:
/// a stored value `v` stands for `v / 100`.
pub const CENTI: i64 = 100;

/// Fixed-point units of the drift dial: a stored value `v` stands for
/// `v / 10000`.
pub const DRIFT_UNITS: i64 = 10000;

/// The four shader-facing colour coefficients and the colour mode, held as
/// exact fixed-point counts of their per-tick steps.
///
/// `base` and `drift` are free-running dials. `tone_a` and `tone_b` are
/// bounded: to `[0, 1]` while `inverted` is false, to `[-1, 0]` while it is
/// true. Switching modes negates both tones, so the mirrored value lands in
/// the other mode's bound.
#[derive(Clone, Copy, Debug, PartialEq, Eq, Structural)]
pub struct Palette {
    /// First coefficient, in hundredths.
    pub base: i64,
    /// Second coefficient, in ten-thousandths.
    pub drift: i64,
    /// Third coefficient, in hundredths.
    pub tone_a: i64,
    /// Fourth coefficient, in hundredths.
    pub tone_b: i64,
    /// The colour mode: false bounds the tones to `[0, 1]`, true to `[-1, 0]`.
    pub inverted: bool,
}

/// Lowest value a tone may hold in the active mode, in hundredths.
pub open spec fn tone_floor(inverted: bool) -> int {
    if inverted {
        -100
    } else {
        0
    }
}

/// Highest value a tone may hold in the active mode, in hundredths.
pub open spec fn tone_ceiling(inverted: bool) -> int {
    if inverted {
        0
    } else {
        100
    }
}

impl Palette {
    /// Both tones lie within the bound of the active mode.
    pub open spec fn wf(self) -> bool {
        &&& tone_floor(self.inverted) <= self.tone_a <= tone_ceiling(self.inverted)
        &&& tone_floor(self.inverted) <= self.tone_b <= tone_ceiling(self.inverted)
    }

    /// The palette after switching colour mode: the mode flips and both tones
    /// change sign.
    pub open spec fn toggled(self) -> Palette {
        Palette {
            base: self.base,
            drift: self.drift,
            tone_a: (-self.tone_a) as i64,
            tone_b: (-self.tone_b) as i64,
            inverted: !self.inverted,
        }
    }

    /// A tone after one tick: its plus control moves it toward the mode's
    /// outer end (1 in the plain mode, -1 in the inverted one), its minus
    /// control toward 0, plus applied before minus.
    pub open spec fn ticked_tone(self, tone: int, plus: bool, minus: bool) -> int {
        if self.inverted {
            lower_then_raise(tone, plus, minus, -100, 0)
        } else {
            raise_then_lower(tone, plus, minus, 0, 100)
        }
    }

    /// The palette after one tick with the controls of `held` down.
    pub open spec fn ticked(self, held: Set<KeyAction>) -> Palette {
        Palette {
            base: raise_then_lower(
                self.base as int,
                held.contains(KeyAction::BasePlus),
                held.contains(KeyAction::BaseMinus),
                i64::MIN as int,
                i64::MAX as int,
            ) as i64,
            drift: raise_then_lower(
                self.drift as int,
                held.contains(KeyAction::DriftPlus),
                held.contains(KeyAction::DriftMinus),
                i64::MIN as int,
                i64::MAX as int,
            ) as i64,
            tone_a: self.ticked_tone(
                self.tone_a as int,
                held.contains(KeyAction::ToneAPlus),
                held.contains(KeyAction::ToneAMinus),
            ) as i64,
            tone_b: self.ticked_tone(
                self.tone_b as int,
                held.contains(KeyAction::ToneBPlus),
                held.contains(KeyAction::ToneBMinus),
            ) as i64,
            inverted: self.inverted,
        }
    }

    /// The palette a session starts with: coefficients 3.3, -0.003, 0.2 and
    /// 1.0, plain mode.
    pub fn initial() -> (r: Palette)
        ensures
            r == (Palette { base: 330, drift: -30i64, tone_a: 20, tone_b: 100, inverted: false }),
            r.wf(),
    {
        Palette { base: 330, drift: -30, tone_a: 20, tone_b: 100, inverted: false }
    }

    /// Switches colour mode, negating both tones in place.
    pub fn toggle(&mut self)
        requires
            old(self).wf(),
        ensures
            *final(self) == old(self).toggled(),
            final(self).wf(),
    {
        self.inverted = !self.inverted;
        self.tone_a = -self.tone_a;
        self.tone_b = -self.tone_b;
    }

    fn tick_tone(&self, tone: i64, plus: bool, minus: bool) -> (r: i64)
        requires
            tone_floor(self.inverted) <= tone <= tone_ceiling(self.inverted),
        ensures
            r == self.ticked_tone(tone as int, plus, minus),
            tone_floor(self.inverted) <= r <= tone_ceiling(self.inverted),
    {
        proof {
            lemma_steps_stay_within(tone as int, plus, minus, -100, 0);
            lemma_steps_stay_within(tone as int, plus, minus, 0, 100);
        }
        if self.inverted {
            lower_then_raise_i64(tone, plus, minus, -100, 0)
        } else {
            raise_then_lower_i64(tone, plus, minus, 0, 100)
        }
    }

    /// Applies one tick of the colour controls held in `held`.
    pub fn tick(&mut self, held: &HeldKeys)
        requires
            old(self).wf(),
        ensures
            *final(self) == old(self).ticked(held@),
            final(self).wf(),
    {
        self.base = raise_then_lower_i64(
            self.base,
            held.is_held(KeyAction::BasePlus),
            held.is_held(KeyAction::BaseMinus),
            i64::MIN,
            i64::MAX,
        );
        self.drift = raise_then_lower_i64(
            self.drift,
            held.is_held(KeyAction::DriftPlus),
            held.is_held(KeyAction::DriftMinus),
            i64::MIN,
            i64::MAX,
        );
        self.tone_a = self.tick_tone(
            self.tone_a,
            held.is_held(KeyAction::ToneAPlus),
            held.is_held(KeyAction::ToneAMinus),
        );
        self.tone_b = self.tick_tone(
            self.tone_b,
            held.is_held(KeyAction::ToneBPlus),
            held.is_held(KeyAction::ToneBMinus),
        );
    }
}

/// Switching colour mode twice restores the palette, tones included.
pub proof fn lemma_toggle_twice(p: Palette)
    requires
        p.wf(),
    ensures
        p.toggled().toggled() == p,
        p.toggled().wf(),
{
}

/// One tick keeps both tones within the active mode's bound.
pub proof fn lemma_tick_keeps_tones_bounded(p: Palette, held: Set<KeyAction>)
    requires
        p.wf(),
    ensures
        p.ticked(held).wf(),
{
    lemma_steps_stay_within(p.tone_a as int, held.contains(KeyAction::ToneAPlus), held.contains(KeyAction::ToneAMinus), -100, 0);
    lemma_steps_stay_within(p.tone_a as int, held.contains(KeyAction::ToneAPlus), held.contains(KeyAction::ToneAMinus), 0, 100);
    lemma_steps_stay_within(p.tone_b as int, held.contains(KeyAction::ToneBPlus), held.contains(KeyAction::ToneBMinus), -100, 0);
    lemma_steps_stay_within(p.tone_b as int, held.contains(KeyAction::ToneBPlus), held.contains(KeyAction::ToneBMinus), 0, 100);
}

} // verus!
