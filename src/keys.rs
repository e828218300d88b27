use vstd::prelude::*;

verus! {

/// A key as seen by the chord logic.
///
/// `Symbol` holds the upper-case letter or the digit of a named primary key
/// (`'A'..='Z'`, `'0'..='9'`); every key that is neither a modifier nor such
/// a symbol is `Other`.
#[derive(PartialEq, Eq, Structural, Clone, Copy, Debug)]
pub enum Key {
    ControlLeft,
    ControlRight,
    ShiftLeft,
    ShiftRight,
    Alt,
    AltGr,
    Symbol(char),
    Other,
}

/// One of the three tracked modifiers; left and right variants collapse.
#[derive(PartialEq, Eq, Structural, Clone, Copy, Debug)]
pub enum Modifier {
    Ctrl,
    Shift,
    Alt,
}

/// The characters that name a primary key: `A`–`Z` and `0`–`9`.
pub open spec fn is_key_char(c: char) -> bool {
    ('A' <= c && c <= 'Z') || ('0' <= c && c <= '9')
}

/// The modifier a key implements, if any.
pub open spec fn spec_modifier_of(k: Key) -> Option<Modifier> {
    match k {
        Key::ControlLeft | Key::ControlRight => Some(Modifier::Ctrl),
        Key::ShiftLeft | Key::ShiftRight => Some(Modifier::Shift),
        Key::Alt | Key::AltGr => Some(Modifier::Alt),
        _ => None,
    }
}

/// The key that an (already upper-cased) key name denotes.
pub open spec fn key_named(s: Seq<char>) -> Option<Key> {
    if s.len() == 1 && is_key_char(s[0]) {
        Some(Key::Symbol(s[0]))
    } else {
        None
    }
}

/// What `str::to_uppercase` returns for a string.
pub uninterp spec fn upper_of(s: Seq<char>) -> Seq<char>;

/// Relies on `str::to_uppercase`: the upper-case mapping of the characters,
/// which depends on the characters alone.
#[verifier::external_body]
fn to_uppercase(s: &str) -> (r: String)
    ensures
        r@ == upper_of(s@),
{
    s.to_uppercase()
}

/// The modifier a key implements, if any.
pub fn modifier_of(k: Key) -> (r: Option<Modifier>)
    ensures
        r == spec_modifier_of(k),
{
    match k {
        Key::ControlLeft | Key::ControlRight => Some(Modifier::Ctrl),
        Key::ShiftLeft | Key::ShiftRight => Some(Modifier::Shift),
        Key::Alt | Key::AltGr => Some(Modifier::Alt),
        _ => None,
    }
}

/// Resolves an upper-case key name (`"A"`..`"Z"`, `"0"`..`"9"`) to its key.
pub fn parse_key_name(name: &str) -> (r: Option<Key>)
    ensures
        r == key_named(name@),
{
    if name.unicode_len() != 1 {
        return None;
    }
    let c = name.get_char(0);
    if ('A' <= c && c <= 'Z') || ('0' <= c && c <= '9') {
        Some(Key::Symbol(c))
    } else {
        None
    }
}

/// Resolves a configured key name, in any letter case, to its key.
pub fn parse_trigger_key(key_str: &str) -> (r: Option<Key>)
    ensures
        r == key_named(upper_of(key_str@)),
        r matches Some(k) ==> k matches Key::Symbol(c) && is_key_char(c),
{
    let upper = to_uppercase(key_str);
    parse_key_name(upper.as_str())
}

} // verus!
