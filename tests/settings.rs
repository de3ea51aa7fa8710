use openflow::asr::AsrBackend;
use openflow::injector::PasteShortcut;
use openflow::settings::{current_hotkey, default_asr_selection, flag_enabled, format_asr_selection_label, migrate_frontend_settings, parse_asr_backend, parse_autoclean_mode, parse_paste_shortcut, resolve_whisper_asset_name, AsrSelection, AutocleanMode, FrontendSettings, PersistedSettings};
use openflow::updater::{asset_key_candidates, base_url_from_manifest_url, build_result, is_newer, parse_version_triplet, LatestAsset, LatestManifest, UpdateError};

#[test]
fn migration_maps_legacy_fields_and_is_stable() {
    let mut s = FrontendSettings::default_settings();
    s.push_to_talk_hotkey = "Alt+Shift+A".to_string();
    s.toggle_to_talk_hotkey = "   ".to_string();
    s.legacy_asr_backend = Some("whisper".to_string());
    s.whisper_model = "large-v3".to_string();
    s.whisper_model_language = "en".to_string();
    s.autoclean_mode = "polish".to_string();
    s.whisper_precision = String::new();
    migrate_frontend_settings(&mut s);
    assert_eq!(s.push_to_talk_hotkey, "RightAlt");
    assert_eq!(s.toggle_to_talk_hotkey, "RightAlt");
    assert_eq!(s.asr_family, "whisper");
    assert_eq!(s.whisper_backend, "onnx");
    assert_eq!(s.whisper_model_language, "multi");
    assert_eq!(s.autoclean_mode, "fast");
    assert_eq!(s.whisper_precision, "int8");
    assert!(s.legacy_asr_backend.is_none());
    let once = s.duplicate();
    migrate_frontend_settings(&mut s);
    assert_eq!(format!("{:?}", s), format!("{:?}", once));
}

#[test]
fn unknown_legacy_backend_falls_back_to_parakeet() {
    let mut s = FrontendSettings::default_settings();
    s.asr_family = "whisper".to_string();
    s.legacy_asr_backend = Some("zipformer".to_string());
    migrate_frontend_settings(&mut s);
    assert_eq!(s.asr_family, "parakeet");
}

#[test]
fn selection_round_trips_through_frontend() {
    let mut s = FrontendSettings::default_settings();
    s.asr_family = "whisper".to_string();
    s.whisper_model = "base".to_string();
    let sel = AsrSelection::from_frontend(&s);
    let mut other = FrontendSettings::default_settings();
    sel.apply_to_frontend(&mut other);
    assert_eq!(other.asr_family, "whisper");
    assert_eq!(other.whisper_model, "base");
    assert_eq!(other.hotkey_mode, "hold");
    assert_eq!(default_asr_selection().asr_family, "parakeet");
    assert_eq!(format_asr_selection_label(&s), "whisper:ct2:base:multi:int8");
    assert_eq!(format_asr_selection_label(&FrontendSettings::default_settings()), "parakeet");
}

#[test]
fn settings_select_backend_asset_and_shortcut() {
    let mut s = FrontendSettings::default_settings();
    assert_eq!(parse_asr_backend(&s), AsrBackend::Parakeet);
    assert_eq!(resolve_whisper_asset_name(&s, AsrBackend::Parakeet), None);
    s.asr_family = "whisper".to_string();
    s.whisper_backend = "onnx".to_string();
    s.whisper_model_language = "en".to_string();
    s.whisper_precision = "float".to_string();
    assert_eq!(parse_asr_backend(&s), AsrBackend::WhisperOnnx);
    assert_eq!(resolve_whisper_asset_name(&s, AsrBackend::WhisperOnnx).as_deref(), Some("whisper-onnx-small-en-float"));
    s.whisper_model = "large-v3-turbo".to_string();
    assert_eq!(resolve_whisper_asset_name(&s, AsrBackend::WhisperCt2).as_deref(), Some("whisper-ct2-large-v3-turbo"));
    s.whisper_model = "gigantic".to_string();
    assert_eq!(resolve_whisper_asset_name(&s, AsrBackend::WhisperCt2).as_deref(), Some("whisper-ct2-small-en"));
    assert_eq!(parse_paste_shortcut("ctrl-v"), PasteShortcut::CtrlV);
    assert_eq!(parse_paste_shortcut("bogus"), PasteShortcut::CtrlShiftV);
    assert_eq!(parse_autoclean_mode("off"), AutocleanMode::Off);
    assert_eq!(parse_autoclean_mode("polish"), AutocleanMode::Fast);
    s.hotkey_mode = "toggle".to_string();
    s.toggle_to_talk_hotkey = "Ctrl+Space".to_string();
    assert_eq!(current_hotkey(&s), "Ctrl+Space");
}

#[test]
fn debug_transcripts_expire() {
    let mut p = PersistedSettings::new();
    let mut s = FrontendSettings::default_settings();
    s.debug_transcripts = true;
    p.write_frontend(s, 1_000);
    assert_eq!(p.debug_transcripts_until, Some(1_000 + 24 * 3600));
    assert!(p.read_frontend(2_000).debug_transcripts);
    assert!(!p.read_frontend(1_000 + 24 * 3600 + 1).debug_transcripts);
    assert_eq!(p.debug_transcripts_until, None);
}

#[test]
fn env_flags_read_common_spellings() {
    assert!(flag_enabled(" TRUE "));
    assert!(flag_enabled("y"));
    assert!(flag_enabled("On"));
    assert!(!flag_enabled("0"));
    assert!(!flag_enabled("enabled"));
}

#[test]
fn versions_compare_numerically() {
    assert_eq!(parse_version_triplet("v1.2.3"), Some((1, 2, 3)));
    assert_eq!(parse_version_triplet(" 2 "), Some((2, 0, 0)));
    assert_eq!(parse_version_triplet("1.x"), None);
    assert_eq!(parse_version_triplet(""), None);
    assert!(is_newer("v0.10.0", "v0.9.9"));
    assert!(!is_newer("v1.0.0", "v1.0.0"));
    assert!(!is_newer("garbage", "v1.0.0"));
}

#[test]
fn manifest_urls_and_asset_keys() {
    assert_eq!(base_url_from_manifest_url("https://x/releases/latest.json").unwrap(), "https://x/releases");
    assert_eq!(base_url_from_manifest_url("https://x/latest.json").unwrap(), "https://x");
    assert!(matches!(base_url_from_manifest_url("https://x/other.json"), Err(UpdateError::ManifestUrl)));
    let keys = asset_key_candidates(Some("linux-x86_64".to_string()), None);
    assert_eq!(keys, vec!["linux-x86_64", "linux-x86_64-webkit41", "linux-x86_64-webkit40"]);
    let manifest = LatestManifest {
        version: "v2.0.0".to_string(),
        assets: vec![(
            "linux-x86_64-webkit40".to_string(),
            LatestAsset { tarball: "app.tar.gz".to_string(), sha256_file: "app.tar.gz.sha256".to_string(), sha256: None },
        )],
    };
    let r = build_result("v1.0.0", "https://x/rel/", &manifest, &keys, 5, false).unwrap();
    assert!(r.update_available);
    assert_eq!(r.tarball_url.as_deref(), Some("https://x/rel/app.tar.gz"));
    assert_eq!(r.sha256_url.as_deref(), Some("https://x/rel/app.tar.gz.sha256"));
}
