use openflow::pipeline::{FinalizeOutcome, SpeechState};
use openflow::warmup::{fallback_selection, model_wait_expired, selections_equal, WarmupFlow, WarmupStage, WarmupStep, WarmupTracker};
use openflow::settings::{default_asr_selection, PersistedSettings};
use openflow::asr::{AsrConfig, AsrEngine, AsrError, ASR_SAMPLE_RATE};
use openflow::audio::{FrameAssembler, SampleRing, SkipReason, VadTrimState};
use openflow::events::{paste_outcome, permissions_status, transcript_outcome, valid_username, CapabilityProbe, PasteOutcome, TranscriptOutcome};
use openflow::hotkey::HotkeyEdge;
use openflow::injector::{OutputAction, OutputInjector, PasteAction, PasteFailureKind, PasteFailureStep, PasteShortcut, OutputInjectionError, ClipboardSnapshot, paste_chord_events};
use openflow::session::{on_hotkey, restart_cooldown_ms, watchdog_should_restart, AsrWarmupState, EngineMetrics, HotkeyMode, HudState, PerformanceEvent, Session, SessionEvent};
use openflow::vad::{Hangover, VadDecision};

fn run(session: &mut Session, mode: HotkeyMode, edge: HotkeyEdge, w: AsrWarmupState, hud: &mut Vec<HudState>) {
    for e in on_hotkey(mode, edge, session.is_listening(), w) {
        if let Some(h) = session.apply(e) {
            hud.push(h);
        }
    }
}

#[test]
fn hold_session_shows_listening_processing_idle() {
    let mut s = Session::new();
    let mut hud = Vec::new();
    run(&mut s, HotkeyMode::Hold, HotkeyEdge::Pressed, AsrWarmupState::Ready, &mut hud);
    run(&mut s, HotkeyMode::Hold, HotkeyEdge::Released, AsrWarmupState::Ready, &mut hud);
    if let Some(h) = s.apply(SessionEvent::Finished) {
        hud.push(h);
    }
    assert_eq!(hud, vec![HudState::Listening, HudState::Processing, HudState::Idle]);
    assert_eq!(HudState::Processing.as_str(), "processing");
}

#[test]
fn toggle_session_uses_two_presses() {
    let mut s = Session::new();
    let mut hud = Vec::new();
    run(&mut s, HotkeyMode::Toggle, HotkeyEdge::Pressed, AsrWarmupState::Ready, &mut hud);
    run(&mut s, HotkeyMode::Toggle, HotkeyEdge::Released, AsrWarmupState::Ready, &mut hud);
    assert_eq!(hud, vec![HudState::Listening]);
    run(&mut s, HotkeyMode::Toggle, HotkeyEdge::Pressed, AsrWarmupState::Ready, &mut hud);
    assert_eq!(hud, vec![HudState::Listening, HudState::Processing]);
    s.apply(SessionEvent::Finished).map(|h| hud.push(h));
    assert_eq!(hud.last(), Some(&HudState::Idle));
}

#[test]
fn press_while_warming_is_ignored() {
    let mut s = Session::new();
    let mut hud = Vec::new();
    run(&mut s, HotkeyMode::Hold, HotkeyEdge::Pressed, AsrWarmupState::Warming, &mut hud);
    assert_eq!(hud, vec![HudState::Warming]);
    assert!(!s.is_listening());
    run(&mut s, HotkeyMode::Hold, HotkeyEdge::Pressed, AsrWarmupState::Error, &mut hud);
    assert_eq!(hud, vec![HudState::Warming, HudState::AsrError]);
}

#[test]
fn warmup_generations_drop_stale_results() {
    let mut store = PersistedSettings::new();
    let mut w = WarmupTracker::new();
    let first = w.request(default_asr_selection()).unwrap();
    // the same selection is already being warmed
    assert_eq!(w.request(default_asr_selection()), None);
    let mut whisper = default_asr_selection();
    whisper.asr_family = "whisper".to_string();
    let second = w.request(whisper).unwrap();
    assert!(!w.finish(first, Ok(default_asr_selection()), &mut store));
    assert_eq!(w.state, AsrWarmupState::Warming);
    assert!(store.last_known_good_asr.is_none());
    let mut whisper = default_asr_selection();
    whisper.asr_family = "whisper".to_string();
    assert!(w.finish(second, Ok(whisper), &mut store));
    assert_eq!(w.state, AsrWarmupState::Ready);
    assert_eq!(store.last_known_good_asr.as_ref().unwrap().asr_family, "whisper");
    let mut again = default_asr_selection();
    again.asr_family = "whisper".to_string();
    // already warm
    assert_eq!(w.request(again), None);
    let third = w.request(default_asr_selection()).unwrap();
    assert!(w.finish(third, Err("no model".to_string()), &mut store));
    assert_eq!(w.state, AsrWarmupState::Error);
    assert_eq!(w.last_error.as_deref(), Some("no model"));
    assert_eq!(store.last_known_good_asr.as_ref().unwrap().asr_family, "whisper");
}

#[test]
fn ring_evicts_oldest_samples() {
    let mut ring: SampleRing<i16> = SampleRing::new(1);
    assert_eq!(ring.capacity(), 120);
    let first: Vec<i16> = (0..100).collect();
    assert_eq!(ring.push_samples(&first), 0);
    let second: Vec<i16> = (100..150).collect();
    assert_eq!(ring.push_samples(&second), 30);
    assert_eq!(ring.len(), 120);
    let all = ring.take_samples();
    assert_eq!(all[0], 30);
    assert_eq!(all[119], 149);
    assert_eq!(ring.len(), 0);
}

#[test]
fn trim_state_tracks_speech_offsets() {
    let mut t = VadTrimState::new();
    t.record(VadDecision::Inactive, 320);
    t.record(VadDecision::Active, 320);
    t.record(VadDecision::Active, 320);
    t.record(VadDecision::Inactive, 320);
    assert_eq!(t.total_samples, 1280);
    assert_eq!(t.first_active, Some(320));
    assert_eq!(t.last_active, Some(960));
    assert_eq!(t.active_samples, 640);
    t.note_buffer_drop(100);
    assert_eq!(t.buffer_start, 100);
    t.reset();
    assert_eq!(t, VadTrimState::new());
}

#[test]
fn silence_and_short_speech_are_skipped() {
    let t = VadTrimState::new();
    assert_eq!(t.compute_trim_range(16_000, 0), Err(SkipReason::NoAudio));
    assert_eq!(t.compute_trim_range(16_000, 8000), Err(SkipReason::NoSpeech));
    let mut t = VadTrimState::new();
    for _ in 0..10 {
        t.record(VadDecision::Active, 320);
    }
    // 3200 samples is 200 ms: below the 350 ms minimum.
    assert_eq!(t.compute_trim_range(16_000, 3200), Err(SkipReason::NoSpeech));
    assert_eq!(SkipReason::NoSpeech.code(), "no-speech");
}

#[test]
fn trim_window_keeps_pre_roll_and_short_tail() {
    let mut t = VadTrimState::new();
    for _ in 0..50 {
        t.record(VadDecision::Inactive, 320);
    }
    for _ in 0..25 {
        t.record(VadDecision::Active, 320);
    }
    for _ in 0..10 {
        t.record(VadDecision::Inactive, 320);
    }
    // speech 16000..24000, buffer 0..27200; tail 3200 <= 9600 keeps the end
    assert_eq!(t.compute_trim_range(16_000, 27_200), Ok((12_800, 27_200)));
    let mut t2 = t;
    for _ in 0..100 {
        t2.record(VadDecision::Inactive, 320);
    }
    // long tail: end at last + 500 ms
    assert_eq!(t2.compute_trim_range(16_000, 59_200), Ok((12_800, 32_000)));
    let mut t3 = t;
    t3.note_buffer_drop(100_000);
    assert_eq!(t3.compute_trim_range(16_000, 1000), Err(SkipReason::TrimRejected));
}

#[test]
fn only_sixteen_kilohertz_reaches_the_recognizer() {
    let mut config = AsrConfig::default_config();
    config.model_dir = Some("/models/parakeet".to_string());
    let engine: AsrEngine<i16> = AsrEngine::new(config);
    assert!(matches!(engine.prepare_finalize(ASR_SAMPLE_RATE, 100), Ok(Some(_))));
    assert!(matches!(engine.prepare_finalize(8_000, 100), Err(AsrError::SampleRateUnsupported(8_000))));
    assert!(matches!(engine.prepare_finalize(48_000, 100), Err(AsrError::SampleRateUnsupported(48_000))));
    assert!(matches!(engine.prepare_finalize(16_000, 0), Ok(None)));
    let bare: AsrEngine<i16> = AsrEngine::new(AsrConfig::default_config());
    assert!(matches!(bare.prepare_finalize(16_000, 10), Err(AsrError::ModelNotInstalled)));
}

#[test]
fn explicit_language_reaches_the_recognizer() {
    let mut config = AsrConfig::default_config();
    config.model_dir = Some("/m".to_string());
    config.auto_language_detect = false;
    config.language = "de".to_string();
    let engine: AsrEngine<i16> = AsrEngine::new(config);
    let req = engine.prepare_finalize(16_000, 1).unwrap().unwrap();
    assert_eq!(req.language.as_deref(), Some("de"));
    assert_eq!(req.model_dir, "/m");
}

fn paste_until_done(hold_check: bool, previous: Option<ClipboardSnapshot>) -> Result<(), OutputInjectionError> {
    let injector = OutputInjector::new();
    let (mut p, first) = injector.inject(OutputAction::Paste);
    assert!(matches!(first, PasteAction::SnapshotClipboard));
    assert!(matches!(p.on_snapshot(previous), PasteAction::WriteClipboard));
    assert!(matches!(p.on_written(Ok(())), PasteAction::ConfirmClipboard));
    assert!(matches!(p.on_confirmed(true), PasteAction::SendChord(PasteShortcut::CtrlShiftV)));
    assert!(matches!(p.on_chord(Ok(())), PasteAction::Hold));
    match p.on_held() {
        PasteAction::CheckClipboard => {}
        PasteAction::Done(r) => return r,
        other => panic!("unexpected {other:?}"),
    }
    match p.on_checked(hold_check) {
        PasteAction::RestoreClipboard => {}
        PasteAction::Done(r) => return r,
        other => panic!("unexpected {other:?}"),
    }
    match p.on_restored(Ok(())) {
        PasteAction::Done(r) => r,
        other => panic!("unexpected {other:?}"),
    }
}

fn snapshot() -> Option<ClipboardSnapshot> {
    Some(ClipboardSnapshot { mime: "text/plain".to_string(), data: b"old".to_vec() })
}

#[test]
fn paste_restores_unchanged_clipboard() {
    assert!(paste_until_done(true, snapshot()).is_ok());
}

#[test]
fn paste_never_overwrites_changed_clipboard() {
    match paste_until_done(false, snapshot()) {
        Err(OutputInjectionError::Paste(f)) => {
            assert_eq!(f.kind, PasteFailureKind::Unconfirmed);
            assert!(!f.transcript_on_clipboard);
        }
        other => panic!("unexpected {other:?}"),
    }
}

#[test]
fn paste_without_snapshot_leaves_transcript() {
    match paste_until_done(true, None) {
        Err(OutputInjectionError::Paste(f)) => {
            assert_eq!(f.step, PasteFailureStep::ClipboardWrite);
            assert_eq!(f.kind, PasteFailureKind::Unconfirmed);
            assert!(f.transcript_on_clipboard);
        }
        other => panic!("unexpected {other:?}"),
    }
}

#[test]
fn missing_clipboard_helper_reports_clipboard_failure() {
    let injector = OutputInjector::new();
    let (mut p, _) = injector.inject(OutputAction::Paste);
    p.on_snapshot(None);
    let done = p.on_written(Err("wl-copy not found (install wl-clipboard)".to_string()));
    let result = match done {
        PasteAction::Done(r) => r,
        other => panic!("unexpected {other:?}"),
    };
    match paste_outcome(result, PasteShortcut::CtrlShiftV, 11, None) {
        PasteOutcome::Failed(payload) => {
            assert_eq!(payload.step, "clipboard");
            assert!(payload.message.contains("wl-copy"));
            assert!(!payload.transcript_on_clipboard);
        }
        other => panic!("unexpected {other:?}"),
    }
}

#[test]
fn chord_failure_keeps_transcript_on_clipboard() {
    let mut injector = OutputInjector::new();
    injector.set_paste_shortcut(PasteShortcut::CtrlV);
    assert_eq!(injector.current_paste_shortcut(), PasteShortcut::CtrlV);
    let (mut p, _) = injector.inject(OutputAction::Paste);
    p.on_snapshot(snapshot());
    p.on_written(Ok(()));
    assert!(matches!(p.on_confirmed(true), PasteAction::SendChord(PasteShortcut::CtrlV)));
    assert!(matches!(p.on_chord(Err("no uinput".to_string())), PasteAction::RewriteClipboard));
    match p.on_rewritten("no uinput".to_string()) {
        PasteAction::Done(Err(OutputInjectionError::Paste(f))) => {
            assert_eq!(f.step.as_str(), "uinput");
            assert_eq!(f.kind.as_str(), "failed");
            assert!(f.transcript_on_clipboard);
        }
        other => panic!("unexpected {other:?}"),
    }
}

#[test]
fn successful_paste_reports_shortcut_and_length() {
    match paste_outcome(Ok(()), PasteShortcut::CtrlShiftV, "hello world".len(), None) {
        PasteOutcome::Succeeded(p) => {
            assert_eq!(p.shortcut, "ctrl-shift-v");
            assert_eq!(p.chars, 11);
        }
        other => panic!("unexpected {other:?}"),
    }
    assert_eq!(transcript_outcome("  ", "  "), TranscriptOutcome::Skip(SkipReason::EmptyTranscript));
    assert_eq!(transcript_outcome("uh", " "), TranscriptOutcome::Skip(SkipReason::CleanEmpty));
    assert_eq!(transcript_outcome("hello world", "hello world"), TranscriptOutcome::Deliver);
}

#[test]
fn copy_action_writes_once() {
    let injector = OutputInjector::new();
    let (mut p, first) = injector.inject(OutputAction::Copy);
    assert!(matches!(first, PasteAction::WriteClipboard));
    assert!(matches!(p.on_written(Err("xclip missing".to_string())), PasteAction::Done(Err(OutputInjectionError::Copy(_)))));
}

#[test]
fn paste_chord_releases_in_reverse() {
    let (down, up) = paste_chord_events(PasteShortcut::CtrlShiftV);
    assert_eq!(down, vec![(29, 1), (42, 1), (47, 1)]);
    assert_eq!(up, vec![(47, 0), (42, 0), (29, 0)]);
    let (down, up) = paste_chord_events(PasteShortcut::CtrlV);
    assert_eq!(down, vec![(29, 1), (47, 1)]);
    assert_eq!(up, vec![(47, 0), (29, 0)]);
}

#[test]
fn governor_enters_and_leaves_performance_mode() {
    let mut m = EngineMetrics::new();
    assert_eq!(m.record_cpu_load(8000), PerformanceEvent::Unchanged);
    assert_eq!(m.record_latency(2500), PerformanceEvent::Unchanged);
    assert_eq!(m.record_latency(2600), PerformanceEvent::Warning);
    assert!(m.performance_mode);
    assert_eq!(m.record_cpu_load(5000), PerformanceEvent::Recovered);
    assert!(!m.performance_mode);
    assert_eq!(m.consecutive_slow, 0);
}

#[test]
fn watchdog_backs_off() {
    assert_eq!(restart_cooldown_ms(0), 2000);
    assert_eq!(restart_cooldown_ms(3), 16000);
    assert_eq!(restart_cooldown_ms(9), 32000);
    assert!(!watchdog_should_restart(true, 10_000, 0, None));
    assert!(!watchdog_should_restart(false, 1_999, 0, None));
    assert!(watchdog_should_restart(false, 2_000, 0, None));
    assert!(!watchdog_should_restart(false, 5_000, 2, Some(7_999)));
    assert!(watchdog_should_restart(false, 5_000, 2, Some(8_000)));
}

#[test]
fn hangover_keeps_frames_active() {
    let mut h = Hangover::new(400);
    assert_eq!(h.apply(false, 0), VadDecision::Inactive);
    assert_eq!(h.apply(true, 1000), VadDecision::Active);
    assert_eq!(h.apply(false, 1399), VadDecision::Active);
    assert_eq!(h.apply(false, 1400), VadDecision::Inactive);
    assert_eq!(h.apply(false, 1401), VadDecision::Inactive);
    h.apply(true, 2000);
    h.reset();
    assert_eq!(h.apply(false, 2001), VadDecision::Inactive);
}

#[test]
fn warmup_falls_back_once() {
    let (mut flow, step) = WarmupFlow::start();
    assert_eq!(step, WarmupStep::WarmSelected);
    assert_eq!(flow.on_warmed(false, false), WarmupStep::WarmFallback);
    assert_eq!(flow.stage, WarmupStage::Fallback);
    assert_eq!(flow.on_warmed(false, false), WarmupStep::Finish(AsrWarmupState::Error));
    let (mut flow, _) = WarmupFlow::start();
    assert_eq!(flow.on_warmed(false, true), WarmupStep::Finish(AsrWarmupState::Error));
    let (mut flow, _) = WarmupFlow::start();
    assert_eq!(flow.on_warmed(true, false), WarmupStep::Finish(AsrWarmupState::Ready));
    let fallback = fallback_selection(None);
    assert_eq!(fallback.asr_family, "parakeet");
    assert!(selections_equal(&fallback, &openflow::settings::default_asr_selection()));
    assert!(model_wait_expired(10_000));
    assert!(!model_wait_expired(9_950));
}

#[test]
fn capability_report_names_missing_helpers() {
    let status = permissions_status(CapabilityProbe {
        xdg_session_type: "wayland".to_string(),
        wayland_display: "wayland-0".to_string(),
        display: String::new(),
        xdg_runtime_dir_available: true,
        x11: Ok((false, false)),
        evdev: Ok(()),
        uinput: Err(("Cannot open /dev/uinput".to_string(), None)),
        wl_copy: false,
        wl_paste: true,
        xclip: false,
        pkexec: true,
        setfacl: true,
    });
    assert!(status.wayland_session);
    assert!(!status.x11_session);
    assert!(!status.wl_copy_available);
    assert!(status.evdev_readable);
    assert!(!status.uinput_writable);
    assert_eq!(status.clipboard_backend, "wayland");
    assert_eq!(status.details, vec!["Cannot open /dev/uinput".to_string(), "Missing wl-copy (install wl-clipboard)".to_string()]);
    assert!(valid_username("alice_1.b-c"));
    assert!(!valid_username("bob; rm -rf /"));
    assert!(!valid_username(""));
}

#[test]
fn capture_keeps_first_channel_in_twenty_ms_frames() {
    let mut frames_in: FrameAssembler<i32> = FrameAssembler::new(200);
    assert_eq!(frames_in.frame_len(), 4);
    // stereo: left samples 0,1,2,..., right samples negative
    let data: Vec<i32> = (0..7).flat_map(|i| [i, -i]).collect();
    let frames = frames_in.push_interleaved(&data, 2);
    assert_eq!(frames, vec![vec![0, 1, 2, 3]]);
    let frames = frames_in.push_interleaved(&[7, -7, 8], 2);
    assert_eq!(frames, vec![vec![4, 5, 6, 7]]);
    let frames = frames_in.push_interleaved(&[9, 10, 11], 1);
    assert_eq!(frames, vec![vec![8, 9, 10, 11]]);
}

#[test]
fn finalize_step_chooses_the_outcome() {
    let mut config = AsrConfig::default_config();
    config.model_dir = Some("/m".to_string());
    let mut st: SpeechState<i16> = SpeechState::new(config, 400);
    let frame = vec![1i16; 320];
    st.process_frame(&frame, true, 0);
    assert!(matches!(st.set_listening(true, 16_000), FinalizeOutcome::Idle));
    for i in 0..50u64 {
        st.process_frame(&frame, true, i * 20);
    }
    match st.set_listening(false, 16_000) {
        FinalizeOutcome::Transcribe(req, samples) => {
            assert_eq!(req.model_dir, "/m");
            assert_eq!(samples.len(), 16_000);
        }
        other => panic!("unexpected {other:?}"),
    }
    assert!(!st.listening);
    st.set_listening(true, 16_000);
    st.process_frame(&frame, false, 10_000);
    assert!(matches!(st.set_listening(false, 16_000), FinalizeOutcome::Skipped(SkipReason::NoSpeech)));
    st.set_listening(true, 48_000);
    for i in 0..60u64 {
        st.process_frame(&frame, true, i * 20);
    }
    assert!(matches!(st.set_listening(false, 48_000), FinalizeOutcome::Failed(AsrError::SampleRateUnsupported(48_000))));
    assert!(matches!(st.set_listening(false, 16_000), FinalizeOutcome::Idle));
}
