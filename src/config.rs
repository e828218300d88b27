use vstd::prelude::*;
use crate::keys::{key_named, upper_of, parse_trigger_key};
use crate::chord::ChordSpec;

verus! {

/// Settings loaded at startup: the API key and the two chords, each as
/// modifier flags plus a key name.
#[derive(Clone, Debug)]
pub struct Config {
    pub gemini_api_key: String,
    pub use_ctrl: bool,
    pub use_shift: bool,
    pub use_alt: bool,
    pub trigger_key: String,
    pub exit_use_ctrl: bool,
    pub exit_use_shift: bool,
    pub exit_use_alt: bool,
    pub exit_key: String,
}

pub fn default_use_ctrl() -> (r: bool)
    ensures
        r,
{
    true
}

pub fn default_use_shift() -> (r: bool)
    ensures
        r,
{
    true
}

pub fn default_use_alt() -> (r: bool)
    ensures
        !r,
{
    false
}

pub fn default_trigger_key() -> (r: String)
    ensures
        r@ == seq!['P'],
{
    proof {
        reveal_strlit("P");
    }
    String::from_str("P")
}

pub fn default_exit_use_ctrl() -> (r: bool)
    ensures
        r,
{
    true
}

pub fn default_exit_use_shift() -> (r: bool)
    ensures
        r,
{
    true
}

pub fn default_exit_use_alt() -> (r: bool)
    ensures
        !r,
{
    false
}

pub fn default_exit_key() -> (r: String)
    ensures
        r@ == seq!['Q'],
{
    proof {
        reveal_strlit("Q");
    }
    String::from_str("Q")
}

/// The human-readable form of a chord: the held modifiers in the order
/// Ctrl, Shift, Alt, then the key name, joined by `+` (`"Ctrl+Shift+P"`).
pub open spec fn shortcut_text(ctrl: bool, shift: bool, alt: bool, key: Seq<char>) -> Seq<char> {
    (if ctrl { seq!['C', 't', 'r', 'l', '+'] } else { Seq::empty() })
        + (if shift { seq!['S', 'h', 'i', 'f', 't', '+'] } else { Seq::empty() })
        + (if alt { seq!['A', 'l', 't', '+'] } else { Seq::empty() })
        + key
}

fn chord_text(ctrl: bool, shift: bool, alt: bool, key: &String) -> (r: String)
    ensures
        r@ == shortcut_text(ctrl, shift, alt, key@),
{
    proof {
        reveal_strlit("Ctrl+");
        reveal_strlit("Shift+");
        reveal_strlit("Alt+");
    }
    let mut text = String::new();
    if ctrl {
        text.append("Ctrl+");
    }
    if shift {
        text.append("Shift+");
    }
    if alt {
        text.append("Alt+");
    }
    text.append(key.as_str());
    assert(text@ =~= shortcut_text(ctrl, shift, alt, key@));
    text
}

/// The process chord as text, e.g. `"Ctrl+Shift+P"`.
pub fn build_shortcut_text(config: &Config) -> (r: String)
    ensures
        r@ == shortcut_text(config.use_ctrl, config.use_shift, config.use_alt, config.trigger_key@),
{
    chord_text(config.use_ctrl, config.use_shift, config.use_alt, &config.trigger_key)
}

/// The exit chord as text, e.g. `"Ctrl+Shift+Q"`.
pub fn build_exit_shortcut_text(config: &Config) -> (r: String)
    ensures
        r@ == shortcut_text(
            config.exit_use_ctrl,
            config.exit_use_shift,
            config.exit_use_alt,
            config.exit_key@,
        ),
{
    chord_text(config.exit_use_ctrl, config.exit_use_shift, config.exit_use_alt, &config.exit_key)
}

/// The chord built from modifier flags and a key name, if the name resolves.
pub open spec fn spec_chord(ctrl: bool, shift: bool, alt: bool, name: Seq<char>) -> Option<
    ChordSpec,
> {
    match key_named(upper_of(name)) {
        Some(k) => Some(ChordSpec { ctrl, shift, alt, key: k }),
        None => None,
    }
}

fn chord_from(ctrl: bool, shift: bool, alt: bool, name: &String) -> (r: Option<ChordSpec>)
    ensures
        r == spec_chord(ctrl, shift, alt, name@),
        r matches Some(c) ==> c.wf(),
{
    match parse_trigger_key(name.as_str()) {
        Some(k) => Some(ChordSpec { ctrl, shift, alt, key: k }),
        None => None,
    }
}

impl Config {
    /// The process chord; `None` when the key name is not a letter or digit.
    pub fn process_chord(&self) -> (r: Option<ChordSpec>)
        ensures
            r == spec_chord(self.use_ctrl, self.use_shift, self.use_alt, self.trigger_key@),
            r matches Some(c) ==> c.wf(),
    {
        chord_from(self.use_ctrl, self.use_shift, self.use_alt, &self.trigger_key)
    }

    /// The exit chord; `None` when the key name is not a letter or digit.
    pub fn exit_chord(&self) -> (r: Option<ChordSpec>)
        ensures
            r == spec_chord(
                self.exit_use_ctrl,
                self.exit_use_shift,
                self.exit_use_alt,
                self.exit_key@,
            ),
            r matches Some(c) ==> c.wf(),
    {
        chord_from(self.exit_use_ctrl, self.exit_use_shift, self.exit_use_alt, &self.exit_key)
    }
}

} // verus!
