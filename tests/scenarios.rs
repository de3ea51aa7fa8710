use openflow::audio::{SkipReason, VadTrimState};
use openflow::events::{paste_outcome, transcript_outcome, PasteOutcome, TranscriptOutcome};
use openflow::hotkey::{HotkeyEdge, KeyTracker, KEY_LEFTCTRL};
use openflow::injector::{ClipboardSnapshot, OutputAction, OutputInjectionError, OutputInjector, PasteAction};
use openflow::session::{on_hotkey, AsrWarmupState, HotkeyMode, HudState, Session, SessionEvent};
use openflow::shortcut::parse_hotkey;
use openflow::vad::VadDecision;

const FRAME: usize = 320; // 20 ms at 16 kHz

fn drive(session: &mut Session, mode: HotkeyMode, edge: Option<HotkeyEdge>, log: &mut Vec<String>) -> bool {
    let mut completed = false;
    if let Some(edge) = edge {
        log.push(format!("hotkey-event:{}", if edge == HotkeyEdge::Pressed { "pressed" } else { "released" }));
        for e in on_hotkey(mode, edge, session.is_listening(), AsrWarmupState::Ready) {
            completed |= e == SessionEvent::Complete;
            if let Some(h) = session.apply(e) {
                log.push(format!("hud-state:{}", h.as_str()));
            }
        }
    }
    completed
}

fn paste() -> Result<(), OutputInjectionError> {
    let injector = OutputInjector::new();
    let (mut p, _) = injector.inject(OutputAction::Paste);
    p.on_snapshot(Some(ClipboardSnapshot { mime: "text/plain".to_string(), data: b"before".to_vec() }));
    p.on_written(Ok(()));
    p.on_confirmed(true);
    p.on_chord(Ok(()));
    p.on_held();
    p.on_checked(true);
    match p.on_restored(Ok(())) {
        PasteAction::Done(r) => r,
        other => panic!("unexpected {other:?}"),
    }
}

fn finish(session: &mut Session, trim: &VadTrimState, buffer_len: usize, transcript: &str, log: &mut Vec<String>) {
    match trim.compute_trim_range(16_000, buffer_len) {
        Err(reason) => log.push(format!("transcription-skipped:{}", reason.code())),
        Ok(_) => match transcript_outcome(transcript, transcript) {
            TranscriptOutcome::Skip(reason) => log.push(format!("transcription-skipped:{}", reason.code())),
            TranscriptOutcome::Deliver => {
                log.push(format!("transcription-output:{transcript}"));
                let shortcut = OutputInjector::new().current_paste_shortcut();
                match paste_outcome(paste(), shortcut, transcript.len(), None) {
                    PasteOutcome::Succeeded(p) => log.push(format!("paste-succeeded:{}:{}", p.shortcut, p.chars)),
                    other => panic!("unexpected {other:?}"),
                }
            }
        },
    }
    if let Some(h) = session.apply(SessionEvent::Finished) {
        log.push(format!("hud-state:{}", h.as_str()));
    }
}

#[test]
fn happy_path_hold_mode() {
    let spec = parse_hotkey("RightAlt").unwrap();
    let mut keys = KeyTracker::new(spec);
    let mut session = Session::new();
    let mut log = Vec::new();
    let mut trim = VadTrimState::new();
    drive(&mut session, HotkeyMode::Hold, keys.on_key(spec.key, 1), &mut log);
    for _ in 0..75 {
        trim.record(VadDecision::Active, FRAME);
    }
    let done = drive(&mut session, HotkeyMode::Hold, keys.on_key(spec.key, 0), &mut log);
    assert!(done);
    finish(&mut session, &trim, 75 * FRAME, "hello world", &mut log);
    assert_eq!(
        log,
        vec![
            "hotkey-event:pressed",
            "hud-state:listening",
            "hotkey-event:released",
            "hud-state:processing",
            "transcription-output:hello world",
            "paste-succeeded:ctrl-shift-v:11",
            "hud-state:idle",
        ]
    );
}

#[test]
fn silent_session_is_skipped() {
    let spec = parse_hotkey("RightAlt").unwrap();
    let mut keys = KeyTracker::new(spec);
    let mut session = Session::new();
    let mut log = Vec::new();
    let mut trim = VadTrimState::new();
    drive(&mut session, HotkeyMode::Hold, keys.on_key(spec.key, 1), &mut log);
    for _ in 0..25 {
        trim.record(VadDecision::Inactive, FRAME);
    }
    drive(&mut session, HotkeyMode::Hold, keys.on_key(spec.key, 0), &mut log);
    finish(&mut session, &trim, 25 * FRAME, "", &mut log);
    assert_eq!(&log[log.len() - 2..], &["transcription-skipped:no-speech".to_string(), "hud-state:idle".to_string()]);
    assert!(!log.iter().any(|l| l.starts_with("transcription-output") || l.starts_with("paste")));
    assert_eq!(SkipReason::NoSpeech.code(), "no-speech");
}

#[test]
fn toggle_mode_two_presses() {
    let spec = parse_hotkey("Ctrl+Space").unwrap();
    let mut keys = KeyTracker::new(spec);
    let mut session = Session::new();
    let mut log = Vec::new();
    let mut trim = VadTrimState::new();
    keys.on_key(KEY_LEFTCTRL, 1);
    drive(&mut session, HotkeyMode::Toggle, keys.on_key(spec.key, 1), &mut log);
    drive(&mut session, HotkeyMode::Toggle, keys.on_key(spec.key, 0), &mut log);
    assert_eq!(log.last().map(String::as_str), Some("hotkey-event:released"));
    assert!(log.contains(&"hud-state:listening".to_string()));
    for _ in 0..100 {
        trim.record(VadDecision::Active, FRAME);
    }
    let done = drive(&mut session, HotkeyMode::Toggle, keys.on_key(spec.key, 1), &mut log);
    assert!(done);
    finish(&mut session, &trim, 100 * FRAME, "test", &mut log);
    let tail: Vec<&str> = log.iter().skip(3).map(String::as_str).collect();
    assert_eq!(tail, vec!["hotkey-event:pressed", "hud-state:processing", "transcription-output:test", "paste-succeeded:ctrl-shift-v:4", "hud-state:idle"]);
}
