use vstd::prelude::*;
use crate::keys::{Key, Modifier, spec_modifier_of, modifier_of};
use crate::chord::{
    ChordSpec, ModifierState, chord_matches, held, key_down, released, with_key, try_match,
};
use crate::config::{Config, spec_chord};

verus! {

/// A raw keyboard event from the global hook.
#[derive(PartialEq, Eq, Structural, Clone, Copy, Debug)]
pub enum KeyEvent {
    Press(Key),
    Release(Key),
}

/// What the host must do after an event.
#[derive(PartialEq, Eq, Structural, Clone, Copy, Debug)]
pub enum Action {
    /// Nothing to do.
    Ignore,
    /// The process chord matched: read the clipboard and dispatch it.
    CaptureClipboard,
    /// The exit chord matched: terminate the process at once.
    Exit,
}

/// The hook's state: live modifiers and the two chords (a chord whose key
/// name did not resolve is `None` and never matches).
#[derive(Clone, Copy, Debug)]
pub struct Listener {
    pub modifiers: ModifierState,
    pub process: Option<ChordSpec>,
    pub exit: Option<ChordSpec>,
}

/// An optional chord matches a press.
pub open spec fn opt_matches(symbol: Key, s: ModifierState, c: Option<ChordSpec>) -> bool {
    match c {
        Some(c) => chord_matches(symbol, s, c),
        None => false,
    }
}

/// The action for an event in a state: only a press of a non-modifier key
/// can match, the exit chord is checked first and wins a tie.
pub open spec fn spec_action(l: Listener, ev: KeyEvent) -> Action {
    match ev {
        KeyEvent::Press(k) => if spec_modifier_of(k).is_some() {
            Action::Ignore
        } else if opt_matches(k, l.modifiers, l.exit) {
            Action::Exit
        } else if opt_matches(k, l.modifiers, l.process) {
            Action::CaptureClipboard
        } else {
            Action::Ignore
        },
        KeyEvent::Release(_) => Action::Ignore,
    }
}

/// The modifier state after an event.
pub open spec fn spec_next(l: Listener, ev: KeyEvent) -> Listener {
    match ev {
        KeyEvent::Press(k) => Listener { modifiers: with_key(l.modifiers, k, true), ..l },
        KeyEvent::Release(k) => Listener { modifiers: with_key(l.modifiers, k, false), ..l },
    }
}

fn matches_opt(symbol: Key, state: &ModifierState, chord: &Option<ChordSpec>) -> (r: bool)
    ensures
        r == opt_matches(symbol, *state, *chord),
{
    match chord {
        Some(c) => try_match(symbol, state, c),
        None => false,
    }
}

impl Listener {
    /// A listener with no modifier held and the chords of `config`.
    pub fn new(config: &Config) -> (r: Listener)
        ensures
            r.modifiers == released(),
            r.process == spec_chord(
                config.use_ctrl,
                config.use_shift,
                config.use_alt,
                config.trigger_key@,
            ),
            r.exit == spec_chord(
                config.exit_use_ctrl,
                config.exit_use_shift,
                config.exit_use_alt,
                config.exit_key@,
            ),
            r.process matches Some(c) ==> c.wf(),
            r.exit matches Some(c) ==> c.wf(),
    {
        Listener {
            modifiers: ModifierState::new(),
            process: config.process_chord(),
            exit: config.exit_chord(),
        }
    }

    /// Feeds one event: updates the modifiers and says what the host must do.
    pub fn on_event(&mut self, ev: KeyEvent) -> (r: Action)
        ensures
            r == spec_action(*old(self), ev),
            *final(self) == spec_next(*old(self), ev),
    {
        match ev {
            KeyEvent::Press(k) => {
                let action = if modifier_of(k).is_some() {
                    Action::Ignore
                } else if matches_opt(k, &self.modifiers, &self.exit) {
                    Action::Exit
                } else if matches_opt(k, &self.modifiers, &self.process) {
                    Action::CaptureClipboard
                } else {
                    Action::Ignore
                };
                self.modifiers.on_key_down(k);
                action
            },
            KeyEvent::Release(k) => {
                self.modifiers.on_key_up(k);
                Action::Ignore
            },
        }
    }
}

/// When the process and exit chords are the same, an event that matches
/// them is an exit and never a capture.
pub proof fn lemma_exit_wins_tie(l: Listener, ev: KeyEvent)
    requires
        l.process == l.exit,
    ensures
        spec_action(l, ev) != Action::CaptureClipboard,
        (ev matches KeyEvent::Press(k) && spec_modifier_of(k).is_none() && opt_matches(
            k,
            l.modifiers,
            l.process,
        )) ==> spec_action(l, ev) == Action::Exit,
{
}

/// Pressing a key changes no modifier unless it is a modifier key, so a
/// process-chord press that fires fires again when repeated: no trigger is
/// swallowed by the first.
pub proof fn lemma_repeat_press_fires_again(l: Listener, k: Key)
    requires
        spec_action(l, KeyEvent::Press(k)) == Action::CaptureClipboard,
    ensures
        spec_next(l, KeyEvent::Press(k)) == l,
        spec_action(spec_next(l, KeyEvent::Press(k)), KeyEvent::Press(k))
            == Action::CaptureClipboard,
{
}

/// Whether key `k` is down after the events: its last press is not
/// followed by a release of it.
pub open spec fn down_after(evs: Seq<KeyEvent>, k: Key) -> bool
    decreases evs.len(),
{
    if evs.len() == 0 {
        false
    } else {
        match evs.last() {
            KeyEvent::Press(j) => if j == k {
                true
            } else {
                down_after(evs.drop_last(), k)
            },
            KeyEvent::Release(j) => if j == k {
                false
            } else {
                down_after(evs.drop_last(), k)
            },
        }
    }
}

/// The listener after the events, fed in arrival order.
pub open spec fn spec_feed(l: Listener, evs: Seq<KeyEvent>) -> Listener
    decreases evs.len(),
{
    if evs.len() == 0 {
        l
    } else {
        spec_next(spec_feed(l, evs.drop_last()), evs.last())
    }
}

/// Starting with no key down, after any sequence of events each modifier
/// key is down exactly when it was pressed and not released since, and each
/// modifier is held exactly when at least one of its two keys is.
pub proof fn lemma_modifiers_follow_history(l: Listener, evs: Seq<KeyEvent>)
    requires
        l.modifiers == released(),
    ensures
        forall|k: Key|
            spec_modifier_of(k) is Some ==> key_down(spec_feed(l, evs).modifiers, k)
                == #[trigger] down_after(evs, k),
        held(spec_feed(l, evs).modifiers, Modifier::Ctrl) == (down_after(evs, Key::ControlLeft)
            || down_after(evs, Key::ControlRight)),
        held(spec_feed(l, evs).modifiers, Modifier::Shift) == (down_after(evs, Key::ShiftLeft)
            || down_after(evs, Key::ShiftRight)),
        held(spec_feed(l, evs).modifiers, Modifier::Alt) == (down_after(evs, Key::Alt)
            || down_after(evs, Key::AltGr)),
    decreases evs.len(),
{
    if evs.len() > 0 {
        let prev = evs.drop_last();
        lemma_modifiers_follow_history(l, prev);
        let s0 = spec_feed(l, prev).modifiers;
        assert forall|k: Key| spec_modifier_of(k) is Some implies key_down(
            spec_feed(l, evs).modifiers,
            k,
        ) == #[trigger] down_after(evs, k) by {
            assert(down_after(prev, k) == key_down(s0, k));
            match evs.last() {
                KeyEvent::Press(j) => {
                    assert(spec_feed(l, evs).modifiers == with_key(s0, j, true));
                },
                KeyEvent::Release(j) => {
                    assert(spec_feed(l, evs).modifiers == with_key(s0, j, false));
                },
            }
        }
    }
    assert(spec_modifier_of(Key::ControlLeft) is Some);
    assert(spec_modifier_of(Key::ControlRight) is Some);
    assert(spec_modifier_of(Key::ShiftLeft) is Some);
    assert(spec_modifier_of(Key::ShiftRight) is Some);
    assert(spec_modifier_of(Key::Alt) is Some);
    assert(spec_modifier_of(Key::AltGr) is Some);
    assert(down_after(evs, Key::ControlLeft) == key_down(spec_feed(l, evs).modifiers, Key::ControlLeft));
    assert(down_after(evs, Key::ControlRight) == key_down(spec_feed(l, evs).modifiers, Key::ControlRight));
    assert(down_after(evs, Key::ShiftLeft) == key_down(spec_feed(l, evs).modifiers, Key::ShiftLeft));
    assert(down_after(evs, Key::ShiftRight) == key_down(spec_feed(l, evs).modifiers, Key::ShiftRight));
    assert(down_after(evs, Key::Alt) == key_down(spec_feed(l, evs).modifiers, Key::Alt));
    assert(down_after(evs, Key::AltGr) == key_down(spec_feed(l, evs).modifiers, Key::AltGr));
}

} // verus!
