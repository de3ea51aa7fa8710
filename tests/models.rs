use openflow::catalog::{ct2_accept_patterns, default_assets, onnx_float_accept_patterns};
use openflow::ct2::{infer_feature_size, prepare_ct2_model_dir, Ct2Error, Ct2Step};
use openflow::digest::{sha256_hex, to_hex};
use openflow::download::{filename_from_uri, plan_for, progress_bp, progress_event_due, strip_components, total_if_known, verify_download, ArchiveDownloadPlan, DownloadCheckError, DownloadPlan};
use openflow::globs::{compile_globset, select_repo_files};
use openflow::models::{asset_dir, ArchiveFormat, ModelAsset, ModelKind, ModelManager, ModelStatus};

fn asset(kind: ModelKind, name: &str, size: u64, status: ModelStatus) -> ModelAsset {
    ModelAsset { kind, name: name.to_string(), version: "main".to_string(), checksum: None, size_bytes: size, status, source: None }
}

#[test]
fn glob_double_star_matches_root_and_nested() {
    let set = compile_globset(&vec!["**/*.json".to_string()]).unwrap().unwrap();
    assert!(set.is_match("config.json"));
    assert!(set.is_match("subdir/config.json"));
}

#[test]
fn glob_excludes_apply() {
    let accepted = compile_globset(&vec!["**/*.onnx".to_string()]).unwrap().unwrap();
    let rejected = compile_globset(&vec!["**/*.int8.onnx".to_string()]).unwrap().unwrap();
    assert!(accepted.is_match("model.onnx"));
    assert!(accepted.is_match("model.int8.onnx"));
    assert!(!rejected.is_match("model.onnx"));
    assert!(rejected.is_match("model.int8.onnx"));
}

#[test]
fn repo_files_pass_accept_and_reject_sets() {
    let accept = compile_globset(&onnx_float_accept_patterns()).unwrap();
    let reject = compile_globset(&vec!["**/*.int8.onnx".to_string()]).unwrap();
    let files = vec![
        "encoder.onnx".to_string(),
        "encoder.int8.onnx".to_string(),
        "tokens.txt".to_string(),
        "README.md".to_string(),
        "sub\\config.json".to_string(),
    ];
    assert_eq!(select_repo_files(&files, &accept, &reject), vec![0, 2, 4]);
    assert_eq!(select_repo_files(&files, &None, &None), vec![0, 1, 2, 3, 4]);
    assert!(compile_globset(&vec![]).unwrap().is_none());
    assert!(compile_globset(&vec!["a[".to_string()]).is_err());
}

#[test]
fn primary_asset_prefers_installed_then_larger() {
    let mut m = ModelManager::from_assets(vec![
        asset(ModelKind::Parakeet, "p-small", 10, ModelStatus::NotInstalled),
        asset(ModelKind::Parakeet, "p-big", 500, ModelStatus::NotInstalled),
        asset(ModelKind::Vad, "vad", 1, ModelStatus::Installed),
    ]);
    assert_eq!(m.primary_asset(ModelKind::Parakeet).unwrap().name, "p-big");
    assert!(m.primary_asset(ModelKind::WhisperCt2).is_none());
    assert_eq!(m.complete_install("p-small", 20, Some("abc".to_string())), Some(0));
    assert_eq!(m.primary_asset(ModelKind::Parakeet).unwrap().name, "p-small");
    assert_eq!(m.uninstall_by_name("p-small"), Some(0));
    assert!(matches!(m.asset_by_name("p-small").unwrap().status, ModelStatus::NotInstalled));
    assert_eq!(m.asset_by_name("p-small").unwrap().size_bytes, 0);
    assert_eq!(m.uninstall_by_name("missing"), None);
}

#[test]
fn equal_rank_picks_the_last_listed() {
    let m = ModelManager::from_assets(vec![
        asset(ModelKind::Vad, "a", 5, ModelStatus::Installed),
        asset(ModelKind::Vad, "b", 5, ModelStatus::Installed),
    ]);
    assert_eq!(m.primary_asset(ModelKind::Vad).unwrap().name, "b");
}

#[test]
fn defaults_merge_into_existing_manifest() {
    let mut m = ModelManager::from_assets(vec![
        asset(ModelKind::Parakeet, "parakeet-tdt-0.6b-v2-int8", 42, ModelStatus::Error("boom".to_string())),
        asset(ModelKind::Vad, "silero-vad-onnx", 7, ModelStatus::Installed),
        asset(ModelKind::Unknown, "old-thing", 1, ModelStatus::Installed),
        asset(ModelKind::Parakeet, "zipformer-en", 1, ModelStatus::Installed),
    ]);
    let removed = m.cleanup_legacy_assets();
    assert_eq!(removed.len(), 2);
    assert_eq!(m.assets().len(), 2);
    m.register_defaults(default_assets());
    assert_eq!(m.assets().len(), 32);
    let p = m.asset_by_name("parakeet-tdt-0.6b-v2-int8").unwrap();
    assert!(matches!(p.status, ModelStatus::NotInstalled));
    assert!(p.source.is_some());
    let v = m.asset_by_name("silero-vad-onnx").unwrap();
    assert!(matches!(v.status, ModelStatus::Installed));
    assert_eq!(v.version, "main");
}

#[test]
fn catalogue_lists_every_size() {
    let all = default_assets();
    assert_eq!(all.len(), 32);
    assert_eq!(all[0].name, "whisper-ct2-tiny");
    assert_eq!(all[1].name, "whisper-ct2-tiny-en");
    assert_eq!(all[9].name, "whisper-ct2-large-v3-turbo");
    assert_eq!(all[10].name, "whisper-onnx-tiny-float");
    assert_eq!(all[31].name, "silero-vad-onnx");
    assert_eq!(ct2_accept_patterns().len(), 10);
    assert_eq!(asset_dir(&all[30]), "asr/parakeet/parakeet-tdt-0.6b-v2-int8-main");
}

#[test]
fn plans_follow_the_asset_source() {
    let all = default_assets();
    match plan_for(&all[30], "/data/models").unwrap() {
        DownloadPlan::Archive(p) => {
            assert_eq!(p.archive_format, ArchiveFormat::TarBz2);
            assert_eq!(p.destination, "/data/models/asr/parakeet/parakeet-tdt-0.6b-v2-int8-main");
            assert_eq!(p.filename.as_deref(), Some("sherpa-onnx-nemo-parakeet-tdt-0.6b-v2-int8.tar.bz2"));
            assert_eq!(p.expected_size_bytes, None);
            assert_eq!(p.staging_path(), "/data/models/asr/parakeet/parakeet-tdt-0.download.tar.bz2");
        }
        other => panic!("unexpected {other:?}"),
    }
    match plan_for(&all[0], "/m").unwrap() {
        DownloadPlan::HfRepo(p) => {
            assert_eq!(p.repo, "Systran/faster-whisper-tiny");
            assert_eq!(p.revision, "main");
        }
        other => panic!("unexpected {other:?}"),
    }
    assert!(plan_for(&asset(ModelKind::Vad, "x", 0, ModelStatus::NotInstalled), "/m").is_none());
}

#[test]
fn file_names_come_from_the_last_segment() {
    assert_eq!(filename_from_uri("https://h/a/b/model.onnx?x=1#f").as_deref(), Some("model.onnx"));
    assert_eq!(filename_from_uri("https://h/a/b/").as_deref(), None);
    assert_eq!(filename_from_uri("plain").as_deref(), Some("plain"));
    assert_eq!(filename_from_uri("https://h/x/?q").as_deref(), None);
}

#[test]
fn strip_components_is_stable() {
    assert_eq!(strip_components("a/b/c.txt", 1).as_deref(), Some("b/c.txt"));
    assert_eq!(strip_components("a/b/c.txt", 1), strip_components("a/b/c.txt", 1));
    assert_eq!(strip_components("a/", 1).as_deref(), Some("."));
    assert_eq!(strip_components("a", 2), None);
    assert_eq!(strip_components("./a//b", 0).as_deref(), Some("./a/b"));
}

#[test]
fn download_checks_size_then_checksum() {
    let mut plan = ArchiveDownloadPlan {
        uri: "u".to_string(),
        archive_format: ArchiveFormat::Zip,
        destination: "/d".to_string(),
        strip_prefix_components: 0,
        expected_size_bytes: Some(10),
        expected_checksum: Some("aa".to_string()),
        filename: None,
    };
    assert!(matches!(verify_download(9, "aa", &plan), Err(DownloadCheckError::SizeMismatch { expected_size: 10, actual_size: 9 })));
    assert!(matches!(verify_download(10, "bb", &plan), Err(DownloadCheckError::ChecksumMismatch { .. })));
    assert!(verify_download(10, "aa", &plan).is_ok());
    plan.expected_size_bytes = None;
    plan.expected_checksum = None;
    assert!(verify_download(1, "zz", &plan).is_ok());
}

#[test]
fn progress_is_in_hundredths_of_a_percent() {
    assert_eq!(progress_bp(50, Some(200)), 2500);
    assert_eq!(progress_bp(300, Some(200)), 10000);
    assert_eq!(progress_bp(1, None), 0);
    assert_eq!(progress_bp(1, Some(0)), 0);
    assert!(progress_event_due(150, 100, 100));
    assert!(progress_event_due(10, 100, 200));
    assert!(!progress_event_due(10, 100, 199));
    assert_eq!(total_if_known(&vec![Some(3), Some(4)]), Some(7));
    assert_eq!(total_if_known(&vec![Some(3), None]), None);
    assert_eq!(total_if_known(&vec![Some(0)]), None);
}

#[test]
fn sha256_is_stable_and_sensitive() {
    assert_eq!(sha256_hex(b"abc"), "ba7816bf8f01cfea414140de5dae2223b00361a396177a9cb410ff61f20015ad");
    assert_eq!(sha256_hex(b""), "e3b0c44298fc1c149afbf4c8996fb92427ae41e4649b934ca495991b7852b855");
    let data = b"model bytes".to_vec();
    assert_eq!(sha256_hex(&data), sha256_hex(&data));
    let mut mutated = data.clone();
    mutated[0] ^= 1;
    assert_ne!(sha256_hex(&data), sha256_hex(&mutated));
    assert_eq!(to_hex(&[0x00, 0x0f, 0xa5, 0xff]), "000fa5ff");
}

#[test]
fn ct2_directory_is_flattened_and_configured() {
    let files = vec![
        "model.bin".to_string(),
        "nested/config.json".to_string(),
        "tokenizer.json".to_string(),
        "nested/deeper/vocabulary.json".to_string(),
    ];
    let steps = prepare_ct2_model_dir("whisper-ct2-large-v3-main", &files).unwrap();
    assert_eq!(steps.len(), 3);
    match &steps[0] {
        Ct2Step::MoveToRoot { from, name } => {
            assert_eq!(from, "nested/config.json");
            assert_eq!(name, "config.json");
        }
        other => panic!("unexpected {other:?}"),
    }
    match &steps[2] {
        Ct2Step::WritePreprocessorConfig { json } => {
            assert!(json.contains("\"feature_size\": 128"));
            assert!(json.contains("\"sampling_rate\": 16000"));
        }
        other => panic!("unexpected {other:?}"),
    }
    assert_eq!(infer_feature_size("whisper-ct2-small-main"), 80);
    assert_eq!(infer_feature_size("Whisper-LARGE"), 128);
    let missing = prepare_ct2_model_dir("x", &vec!["config.json".to_string()]);
    assert!(matches!(missing, Err(Ct2Error::MissingFile(ref n)) if n == "model.bin"));
    let no_vocab = prepare_ct2_model_dir(
        "x",
        &vec!["model.bin".to_string(), "config.json".to_string(), "tokenizer.json".to_string()],
    );
    assert!(matches!(no_vocab, Err(Ct2Error::MissingVocabulary)));
}

#[test]
fn absolute_entries_keep_a_single_root_slash() {
    assert_eq!(strip_components("/a/b", 0).as_deref(), Some("/a/b"));
    assert_eq!(strip_components("/a/b", 1).as_deref(), Some("a/b"));
}
