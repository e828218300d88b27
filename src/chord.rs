use vstd::prelude::*;
use crate::keys::{Key, Modifier, is_key_char, spec_modifier_of};

verus! {

/// Live held-down state of the physical modifier keys.
///
/// Each modifier has a left and a right key (`Alt` and `AltGr` for alt);
/// the modifier counts as held while at least one of its two keys is down.
#[derive(PartialEq, Eq, Structural, Clone, Copy, Debug)]
pub struct ModifierState {
    pub ctrl_left: bool,
    pub ctrl_right: bool,
    pub shift_left: bool,
    pub shift_right: bool,
    pub alt_left: bool,
    pub alt_right: bool,
}

/// Whether the physical modifier key `k` is down (`false` for any other key).
pub open spec fn key_down(s: ModifierState, k: Key) -> bool {
    match k {
        Key::ControlLeft => s.ctrl_left,
        Key::ControlRight => s.ctrl_right,
        Key::ShiftLeft => s.shift_left,
        Key::ShiftRight => s.shift_right,
        Key::Alt => s.alt_left,
        Key::AltGr => s.alt_right,
        _ => false,
    }
}

/// The modifier is held: at least one of its keys is down.
pub open spec fn held(s: ModifierState, m: Modifier) -> bool {
    match m {
        Modifier::Ctrl => s.ctrl_left || s.ctrl_right,
        Modifier::Shift => s.shift_left || s.shift_right,
        Modifier::Alt => s.alt_left || s.alt_right,
    }
}

/// Whether the other key of the same modifier as `k` is down.
pub open spec fn other_side_down(s: ModifierState, k: Key) -> bool {
    match k {
        Key::ControlLeft => s.ctrl_right,
        Key::ControlRight => s.ctrl_left,
        Key::ShiftLeft => s.shift_right,
        Key::ShiftRight => s.shift_left,
        Key::Alt => s.alt_right,
        Key::AltGr => s.alt_left,
        _ => false,
    }
}

/// `s` with the physical modifier key `k` (if it is one) set to `down`.
pub open spec fn with_key(s: ModifierState, k: Key, down: bool) -> ModifierState {
    match k {
        Key::ControlLeft => ModifierState { ctrl_left: down, ..s },
        Key::ControlRight => ModifierState { ctrl_right: down, ..s },
        Key::ShiftLeft => ModifierState { shift_left: down, ..s },
        Key::ShiftRight => ModifierState { shift_right: down, ..s },
        Key::Alt => ModifierState { alt_left: down, ..s },
        Key::AltGr => ModifierState { alt_right: down, ..s },
        _ => s,
    }
}

/// The state with no key down.
pub open spec fn released() -> ModifierState {
    ModifierState {
        ctrl_left: false,
        ctrl_right: false,
        shift_left: false,
        shift_right: false,
        alt_left: false,
        alt_right: false,
    }
}

impl ModifierState {
    /// No modifier held.
    pub fn new() -> (r: ModifierState)
        ensures
            r == released(),
    {
        ModifierState {
            ctrl_left: false,
            ctrl_right: false,
            shift_left: false,
            shift_right: false,
            alt_left: false,
            alt_right: false,
        }
    }

    /// Whether either Ctrl key is down.
    pub fn ctrl(&self) -> (r: bool)
        ensures
            r == held(*self, Modifier::Ctrl),
    {
        self.ctrl_left || self.ctrl_right
    }

    /// Whether either Shift key is down.
    pub fn shift(&self) -> (r: bool)
        ensures
            r == held(*self, Modifier::Shift),
    {
        self.shift_left || self.shift_right
    }

    /// Whether either Alt key is down.
    pub fn alt(&self) -> (r: bool)
        ensures
            r == held(*self, Modifier::Alt),
    {
        self.alt_left || self.alt_right
    }

    fn set(&mut self, k: Key, down: bool)
        ensures
            *final(self) == with_key(*old(self), k, down),
    {
        match k {
            Key::ControlLeft => self.ctrl_left = down,
            Key::ControlRight => self.ctrl_right = down,
            Key::ShiftLeft => self.shift_left = down,
            Key::ShiftRight => self.shift_right = down,
            Key::Alt => self.alt_left = down,
            Key::AltGr => self.alt_right = down,
            _ => {},
        }
    }

    /// Records a key press: a modifier key is marked down, so its modifier
    /// is held; any other key leaves the state as it was.
    pub fn on_key_down(&mut self, k: Key)
        ensures
            *final(self) == with_key(*old(self), k, true),
            spec_modifier_of(k) matches Some(m) ==> held(*final(self), m),
            spec_modifier_of(k) is None ==> *final(self) == *old(self),
    {
        self.set(k, true)
    }

    /// Records a key release: a modifier key is marked up, and its modifier
    /// stays held exactly when the other key of that modifier is still down;
    /// any other key leaves the state as it was.
    pub fn on_key_up(&mut self, k: Key)
        ensures
            *final(self) == with_key(*old(self), k, false),
            spec_modifier_of(k) matches Some(m) ==> (held(*final(self), m) <==> other_side_down(
                *old(self),
                k,
            )),
            spec_modifier_of(k) is None ==> *final(self) == *old(self),
    {
        self.set(k, false)
    }
}

/// A chord: required modifiers plus one primary key.
///
/// A modifier flag that is `false` means "don't care", not "must be up".
#[derive(PartialEq, Eq, Structural, Clone, Copy, Debug)]
pub struct ChordSpec {
    pub ctrl: bool,
    pub shift: bool,
    pub alt: bool,
    pub key: Key,
}

impl ChordSpec {
    /// The primary key is a named symbol key.
    pub open spec fn wf(&self) -> bool {
        self.key matches Key::Symbol(c) && is_key_char(c)
    }

    /// Whether the chord asks for the modifier to be held.
    pub open spec fn requires_mod(&self, m: Modifier) -> bool {
        match m {
            Modifier::Ctrl => self.ctrl,
            Modifier::Shift => self.shift,
            Modifier::Alt => self.alt,
        }
    }
}

/// A press of `symbol` under `s` matches `c`.
pub open spec fn chord_matches(symbol: Key, s: ModifierState, c: ChordSpec) -> bool {
    symbol == c.key && (!c.ctrl || held(s, Modifier::Ctrl)) && (!c.shift || held(s, Modifier::Shift))
        && (!c.alt || held(s, Modifier::Alt))
}

/// Whether a key-down of `symbol` under the live modifier state matches the
/// chord: the key is the chord's primary key and every required modifier is
/// held.
pub fn try_match(symbol: Key, state: &ModifierState, chord: &ChordSpec) -> (r: bool)
    ensures
        r == chord_matches(symbol, *state, *chord),
{
    symbol == chord.key && (!chord.ctrl || state.ctrl()) && (!chord.shift || state.shift()) && (
    !chord.alt || state.alt())
}

/// A chord matches exactly when the key is its primary key and every
/// modifier it requires is held; modifiers it does not require have no
/// influence, so two states that agree on the required modifiers give the
/// same answer.
pub proof fn lemma_match_depends_on_required_only(
    symbol: Key,
    s1: ModifierState,
    s2: ModifierState,
    c: ChordSpec,
)
    requires
        forall|m: Modifier| c.requires_mod(m) ==> held(s1, m) == held(s2, m),
    ensures
        chord_matches(symbol, s1, c) <==> (symbol == c.key && forall|m: Modifier|
            c.requires_mod(m) ==> held(s1, m)),
        chord_matches(symbol, s1, c) == chord_matches(symbol, s2, c),
{
    assert(c.requires_mod(Modifier::Ctrl) ==> held(s1, Modifier::Ctrl) == held(s2, Modifier::Ctrl));
    assert(c.requires_mod(Modifier::Shift) ==> held(s1, Modifier::Shift) == held(s2, Modifier::Shift));
    assert(c.requires_mod(Modifier::Alt) ==> held(s1, Modifier::Alt) == held(s2, Modifier::Alt));
    if chord_matches(symbol, s1, c) {
        assert forall|m: Modifier| c.requires_mod(m) implies held(s1, m) by {
            match m {
                Modifier::Ctrl => {},
                Modifier::Shift => {},
                Modifier::Alt => {},
            }
        }
    }
}

} // verus!
