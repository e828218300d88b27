use vstd::prelude::*;

verus! {

/// The Unicode `White_Space` property (the one `char::is_whitespace` and
/// `str::trim` go by): U+0009..U+000D, U+0020, U+0085, U+00A0, U+1680,
/// U+2000..U+200A, U+2028, U+2029, U+202F, U+205F and U+3000.
pub open spec fn white_space(c: char) -> bool {
    ('\u{9}' <= c && c <= '\u{d}') || c == ' ' || c == '\u{85}' || c == '\u{a0}' || c
        == '\u{1680}' || ('\u{2000}' <= c && c <= '\u{200a}') || c == '\u{2028}' || c
        == '\u{2029}' || c == '\u{202f}' || c == '\u{205f}' || c == '\u{3000}'
}

/// Whether the character has the Unicode `White_Space` property.
pub fn is_whitespace(c: char) -> (r: bool)
    ensures
        r == white_space(c),
{
    ('\u{9}' <= c && c <= '\u{d}') || c == ' ' || c == '\u{85}' || c == '\u{a0}' || c
        == '\u{1680}' || ('\u{2000}' <= c && c <= '\u{200a}') || c == '\u{2028}' || c
        == '\u{2029}' || c == '\u{202f}' || c == '\u{205f}' || c == '\u{3000}'
}

/// Every character is white space (the empty text included), i.e. the text
/// is empty once trimmed.
pub open spec fn blank(s: Seq<char>) -> bool {
    forall|i: int| 0 <= i < s.len() ==> white_space(#[trigger] s[i])
}

/// Whether the text is empty or white space only.
pub fn is_blank(s: &str) -> (r: bool)
    ensures
        r == blank(s@),
{
    let n = s.unicode_len();
    let mut i: usize = 0;
    while i < n
        invariant
            n == s@.len(),
            i <= n,
            forall|j: int| 0 <= j < i ==> white_space(#[trigger] s@[j]),
        decreases n - i,
    {
        if !is_whitespace(s.get_char(i)) {
            return false;
        }
        i = i + 1;
    }
    true
}

/// The payload of a process-chord match: the captured, non-blank text.
#[derive(Clone, Debug)]
pub struct TriggerEvent {
    pub text: String,
}

/// Why a capture produced no trigger.
#[derive(PartialEq, Eq, Structural, Clone, Copy, Debug)]
pub enum CaptureError {
    /// The clipboard could not be opened or read as text.
    ClipboardUnavailable,
    /// The clipboard text is empty or white space only.
    ClipboardEmpty,
}

/// Turns the result of a clipboard read (`None` when it failed) into a
/// trigger. The text is carried unchanged, untrimmed.
pub fn capture(read: Option<String>) -> (r: Result<TriggerEvent, CaptureError>)
    ensures
        read is None <==> r == Err::<TriggerEvent, CaptureError>(CaptureError::ClipboardUnavailable),
        read matches Some(t) ==> (blank(t@) <==> r == Err::<TriggerEvent, CaptureError>(
            CaptureError::ClipboardEmpty,
        )),
        read matches Some(t) ==> (r matches Ok(e) ==> e.text@ == t@),
        r is Ok <==> (read matches Some(t) && !blank(t@)),
{
    match read {
        None => Err(CaptureError::ClipboardUnavailable),
        Some(text) => {
            if is_blank(text.as_str()) {
                Err(CaptureError::ClipboardEmpty)
            } else {
                Ok(TriggerEvent { text })
            }
        },
    }
}

} // verus!
