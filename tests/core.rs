use clip_chord::chord::{try_match, ChordSpec, ModifierState};
use clip_chord::config::{
    build_exit_shortcut_text, build_shortcut_text, default_exit_key, default_exit_use_alt,
    default_exit_use_ctrl, default_exit_use_shift, default_trigger_key, default_use_alt,
    default_use_ctrl, default_use_shift, Config,
};
use clip_chord::keys::{modifier_of, parse_key_name, parse_trigger_key, Key, Modifier};
use clip_chord::listener::{Action, KeyEvent, Listener};
use clip_chord::pipeline::{
    build_full_prompt, response_text, Candidate, Command, PipelineTask, ProcessingContext, Stage,
    TaskEvent, SETTLE_DELAY_MS,
};
use clip_chord::trigger::{capture, is_blank, is_whitespace, CaptureError};

fn config(trigger: &str, exit: &str) -> Config {
    Config {
        gemini_api_key: "SECRET-REDACTED".to_string(),
        use_ctrl: true,
        use_shift: true,
        use_alt: false,
        trigger_key: trigger.to_string(),
        exit_use_ctrl: true,
        exit_use_shift: true,
        exit_use_alt: false,
        exit_key: exit.to_string(),
    }
}

fn chord(ctrl: bool, shift: bool, alt: bool, c: char) -> ChordSpec {
    ChordSpec { ctrl, shift, alt, key: Key::Symbol(c) }
}

fn state(ctrl: bool, shift: bool, alt: bool) -> ModifierState {
    ModifierState {
        ctrl_left: ctrl,
        ctrl_right: false,
        shift_left: false,
        shift_right: shift,
        alt_left: alt,
        alt_right: false,
    }
}

fn flags(s: &ModifierState) -> (bool, bool, bool) {
    (s.ctrl(), s.shift(), s.alt())
}

#[test]
fn defaults_are_ctrl_shift_p_and_q() {
    assert!(default_use_ctrl());
    assert!(default_use_shift());
    assert!(!default_use_alt());
    assert_eq!(default_trigger_key(), "P");
    assert!(default_exit_use_ctrl());
    assert!(default_exit_use_shift());
    assert!(!default_exit_use_alt());
    assert_eq!(default_exit_key(), "Q");
}

#[test]
fn shortcut_texts() {
    let c = config("P", "Q");
    assert_eq!(build_shortcut_text(&c), "Ctrl+Shift+P");
    assert_eq!(build_exit_shortcut_text(&c), "Ctrl+Shift+Q");
    let mut d = config("k", "7");
    d.use_ctrl = false;
    d.use_alt = true;
    d.exit_use_ctrl = false;
    d.exit_use_shift = false;
    assert_eq!(build_shortcut_text(&d), "Shift+Alt+k");
    assert_eq!(build_exit_shortcut_text(&d), "7");
}

#[test]
fn key_names_resolve_in_any_case() {
    assert_eq!(parse_trigger_key("p"), Some(Key::Symbol('P')));
    assert_eq!(parse_trigger_key("Z"), Some(Key::Symbol('Z')));
    assert_eq!(parse_trigger_key("0"), Some(Key::Symbol('0')));
    assert_eq!(parse_trigger_key("9"), Some(Key::Symbol('9')));
    assert_eq!(parse_trigger_key(""), None);
    assert_eq!(parse_trigger_key("PP"), None);
    assert_eq!(parse_trigger_key("F1"), None);
    assert_eq!(parse_trigger_key("+"), None);
    assert_eq!(parse_key_name("a"), None);
    assert_eq!(parse_key_name("A"), Some(Key::Symbol('A')));
}

#[test]
fn modifier_keys_collapse_left_and_right() {
    assert_eq!(modifier_of(Key::ControlLeft), Some(Modifier::Ctrl));
    assert_eq!(modifier_of(Key::ControlRight), Some(Modifier::Ctrl));
    assert_eq!(modifier_of(Key::ShiftRight), Some(Modifier::Shift));
    assert_eq!(modifier_of(Key::AltGr), Some(Modifier::Alt));
    assert_eq!(modifier_of(Key::Symbol('A')), None);
    assert_eq!(modifier_of(Key::Other), None);
}

#[test]
fn tracker_follows_presses_and_releases() {
    let mut s = ModifierState::new();
    assert_eq!(flags(&s), (false, false, false));
    s.on_key_down(Key::ControlLeft);
    s.on_key_down(Key::ShiftRight);
    assert_eq!(flags(&s), (true, true, false));
    let before = s;
    s.on_key_down(Key::Symbol('P'));
    assert_eq!(s, before);
    s.on_key_down(Key::AltGr);
    assert_eq!(flags(&s), (true, true, true));
    s.on_key_up(Key::ControlLeft);
    assert_eq!(flags(&s), (false, true, true));
    s.on_key_up(Key::Other);
    assert_eq!(flags(&s), (false, true, true));
    s.on_key_up(Key::AltGr);
    s.on_key_up(Key::ShiftRight);
    assert_eq!(flags(&s), (false, false, false));
    assert_eq!(s, ModifierState::new());
}

#[test]
fn releasing_one_side_keeps_modifier_held() {
    let mut s = ModifierState::new();
    s.on_key_down(Key::ControlLeft);
    s.on_key_down(Key::ControlRight);
    s.on_key_up(Key::ControlLeft);
    assert!(s.ctrl());
    s.on_key_up(Key::ControlRight);
    assert!(!s.ctrl());
    s.on_key_down(Key::ShiftRight);
    s.on_key_down(Key::ShiftLeft);
    s.on_key_up(Key::ShiftRight);
    assert!(s.shift());
    s.on_key_down(Key::Alt);
    s.on_key_down(Key::AltGr);
    s.on_key_up(Key::AltGr);
    assert!(s.alt());
    s.on_key_up(Key::Alt);
    assert!(!s.alt());
}

#[test]
fn chord_fires_while_other_ctrl_still_down() {
    let c = config("P", "Q");
    let mut l = Listener::new(&c);
    l.on_event(KeyEvent::Press(Key::ControlLeft));
    l.on_event(KeyEvent::Press(Key::ControlRight));
    l.on_event(KeyEvent::Press(Key::ShiftLeft));
    l.on_event(KeyEvent::Release(Key::ControlLeft));
    assert_eq!(l.on_event(KeyEvent::Press(Key::Symbol('P'))), Action::CaptureClipboard);
    l.on_event(KeyEvent::Release(Key::ControlRight));
    assert_eq!(l.on_event(KeyEvent::Press(Key::Symbol('P'))), Action::Ignore);
}

#[test]
fn whitespace_agrees_with_std() {
    for c in (0u32..=0x10FFFF).filter_map(char::from_u32) {
        assert_eq!(is_whitespace(c), c.is_whitespace(), "{:?}", c);
    }
    assert!(is_blank("\u{a0}\u{3000}\u{2029}"));
    assert!(!is_blank("\u{200b}"));
}

#[test]
fn match_needs_key_and_required_modifiers_only() {
    let c = chord(true, true, false, 'P');
    assert!(try_match(Key::Symbol('P'), &state(true, true, false), &c));
    assert!(try_match(Key::Symbol('P'), &state(true, true, true), &c));
    assert!(!try_match(Key::Symbol('P'), &state(true, false, false), &c));
    assert!(!try_match(Key::Symbol('P'), &state(false, true, true), &c));
    assert!(!try_match(Key::Symbol('Q'), &state(true, true, false), &c));
    let none = chord(false, false, false, '5');
    for ctrl in [false, true] {
        for shift in [false, true] {
            for alt in [false, true] {
                assert!(try_match(Key::Symbol('5'), &state(ctrl, shift, alt), &none));
                assert!(!try_match(Key::Other, &state(ctrl, shift, alt), &none));
            }
        }
    }
}

#[test]
fn identical_chords_exit_rather_than_capture() {
    let c = config("P", "p");
    let mut l = Listener::new(&c);
    assert_eq!(l.on_event(KeyEvent::Press(Key::ControlLeft)), Action::Ignore);
    assert_eq!(l.on_event(KeyEvent::Press(Key::ShiftLeft)), Action::Ignore);
    assert_eq!(l.on_event(KeyEvent::Press(Key::Symbol('P'))), Action::Exit);
}

#[test]
fn listener_dispatches_process_and_exit() {
    let c = config("P", "Q");
    let mut l = Listener::new(&c);
    assert_eq!(l.on_event(KeyEvent::Press(Key::Symbol('P'))), Action::Ignore);
    l.on_event(KeyEvent::Press(Key::ControlRight));
    assert_eq!(l.on_event(KeyEvent::Press(Key::Symbol('P'))), Action::Ignore);
    l.on_event(KeyEvent::Press(Key::ShiftLeft));
    assert_eq!(l.on_event(KeyEvent::Press(Key::Symbol('P'))), Action::CaptureClipboard);
    assert_eq!(l.on_event(KeyEvent::Release(Key::Symbol('P'))), Action::Ignore);
    assert_eq!(l.on_event(KeyEvent::Press(Key::Symbol('Q'))), Action::Exit);
    l.on_event(KeyEvent::Release(Key::ControlRight));
    assert_eq!(l.on_event(KeyEvent::Press(Key::Symbol('Q'))), Action::Ignore);
}

#[test]
fn unresolvable_key_name_never_matches() {
    let c = config("F5", "Q");
    let mut l = Listener::new(&c);
    assert_eq!(l.process, None);
    l.on_event(KeyEvent::Press(Key::ControlLeft));
    l.on_event(KeyEvent::Press(Key::ShiftLeft));
    assert_eq!(l.on_event(KeyEvent::Press(Key::Other)), Action::Ignore);
    assert_eq!(l.on_event(KeyEvent::Press(Key::Symbol('Q'))), Action::Exit);
}

#[test]
fn whitespace_only_clipboard_gives_no_trigger() {
    assert!(is_blank("  "));
    assert!(is_blank(""));
    assert!(is_blank(" \t\n"));
    assert!(!is_blank(" a "));
    assert_eq!(capture(Some("  ".to_string())).unwrap_err(), CaptureError::ClipboardEmpty);
}

#[test]
fn hello_is_captured_exactly() {
    let e = capture(Some("hello".to_string())).unwrap();
    assert_eq!(e.text, "hello");
    let padded = capture(Some("  hi\n".to_string())).unwrap();
    assert_eq!(padded.text, "  hi\n");
}

#[test]
fn unreadable_clipboard_gives_no_trigger() {
    assert_eq!(capture(None).unwrap_err(), CaptureError::ClipboardUnavailable);
}

#[test]
fn repeated_press_fires_twice() {
    let c = config("P", "Q");
    let mut l = Listener::new(&c);
    l.on_event(KeyEvent::Press(Key::ControlLeft));
    l.on_event(KeyEvent::Press(Key::ShiftLeft));
    let mut texts = Vec::new();
    for clip in ["first", "second"] {
        assert_eq!(l.on_event(KeyEvent::Press(Key::Symbol('P'))), Action::CaptureClipboard);
        texts.push(capture(Some(clip.to_string())).unwrap().text);
    }
    assert_eq!(texts, vec!["first".to_string(), "second".to_string()]);
}

#[test]
fn full_prompt_layout() {
    assert_eq!(build_full_prompt("Fix:", "teh cat"), "Fix:\n\nSelected text: teh cat");
    assert_eq!(build_full_prompt("", ""), "\n\nSelected text: ");
}

#[test]
fn response_text_takes_first_part_of_first_candidate() {
    let cands = vec![
        Candidate { parts: vec!["one".to_string(), "two".to_string()] },
        Candidate { parts: vec!["three".to_string()] },
    ];
    assert_eq!(response_text(&cands), "one");
    assert_eq!(response_text(&vec![]), "No response from Gemini");
    assert_eq!(response_text(&vec![Candidate { parts: vec![] }]), "No response from Gemini");
}

fn task(selected: &str) -> PipelineTask {
    let ev = capture(Some(selected.to_string())).unwrap();
    let ctx = ProcessingContext::new(&"Translate:".to_string(), &"SECRET-REDACTED".to_string(), ev);
    PipelineTask::new(ctx)
}

#[test]
fn failed_generation_touches_nothing() {
    let mut t = task("text");
    assert!(matches!(t.advance(TaskEvent::Start), Command::CallApi(_)));
    assert!(matches!(t.advance(TaskEvent::GenerationFailed), Command::Stop));
    assert_eq!(t.stage, Stage::Failed);
    for ev in [TaskEvent::Generated("x".to_string()), TaskEvent::ClipboardWritten, TaskEvent::Settled] {
        assert!(matches!(t.advance(ev), Command::Stop));
    }
    assert_eq!(t.stage, Stage::Failed);
}

#[test]
fn clipboard_write_failure_skips_paste() {
    let mut t = task("text");
    t.advance(TaskEvent::Start);
    t.advance(TaskEvent::Generated("out".to_string()));
    assert!(matches!(t.advance(TaskEvent::ClipboardWriteFailed), Command::Stop));
    assert!(matches!(t.advance(TaskEvent::Settled), Command::Stop));
    assert_eq!(t.stage, Stage::Failed);
}

#[test]
fn out_of_order_event_is_idle() {
    let mut t = task("text");
    assert!(matches!(t.advance(TaskEvent::Settled), Command::Idle));
    assert_eq!(t.stage, Stage::Dispatched);
    t.advance(TaskEvent::Start);
    t.advance(TaskEvent::Generated("out".to_string()));
    t.advance(TaskEvent::ClipboardWritten);
    t.advance(TaskEvent::Settled);
    assert!(matches!(t.advance(TaskEvent::PasteFailed), Command::Stop));
    assert_eq!(t.stage, Stage::Failed);
}

#[test]
fn end_to_end_translate() {
    let c = config("P", "Q");
    let mut l = Listener::new(&c);
    l.on_event(KeyEvent::Press(Key::ControlLeft));
    l.on_event(KeyEvent::Press(Key::ShiftLeft));
    assert_eq!(l.on_event(KeyEvent::Press(Key::Symbol('P'))), Action::CaptureClipboard);
    let mut clipboard = "translate me".to_string();
    let ev = capture(Some(clipboard.clone())).unwrap();
    let ctx = ProcessingContext::new(&"Translate:".to_string(), &c.gemini_api_key, ev);
    let mut t = PipelineTask::new(ctx);
    let mut pastes = 0;
    let mut calls = 0;
    let mut cmd = t.advance(TaskEvent::Start);
    loop {
        let next = match cmd {
            Command::CallApi(p) => {
                assert_eq!(p, "Translate:\n\nSelected text: translate me");
                calls += 1;
                TaskEvent::Generated("translated".to_string())
            }
            Command::WriteClipboard(s) => {
                clipboard = s;
                TaskEvent::ClipboardWritten
            }
            Command::Wait(ms) => {
                assert_eq!(ms, SETTLE_DELAY_MS);
                TaskEvent::Settled
            }
            Command::SynthesizePaste => {
                pastes += 1;
                TaskEvent::PasteDone
            }
            Command::Idle => panic!("unexpected idle"),
            Command::Stop => break,
        };
        cmd = t.advance(next);
    }
    assert_eq!(t.stage, Stage::Done);
    assert_eq!(clipboard, "translated");
    assert_eq!(calls, 1);
    assert_eq!(pastes, 1);
}

#[test]
fn end_to_end_empty_clipboard() {
    let c = config("P", "Q");
    let mut l = Listener::new(&c);
    l.on_event(KeyEvent::Press(Key::ControlLeft));
    l.on_event(KeyEvent::Press(Key::ShiftLeft));
    assert_eq!(l.on_event(KeyEvent::Press(Key::Symbol('P'))), Action::CaptureClipboard);
    assert_eq!(capture(Some(String::new())).unwrap_err(), CaptureError::ClipboardEmpty);
}
