//! The built-in model catalogue.
use vstd::prelude::*;
use crate::models::{ArchiveFormat, ModelArchiveSource, ModelAsset, ModelHfSource, ModelKind, ModelSource, ModelStatus};

verus! {

fn strings(items: &[&str]) -> (r: Vec<String>)
    ensures
        r@.len() == items@.len(),
        forall|i: int| 0 <= i < r@.len() ==> #[trigger] r@[i]@ == items@[i]@,
{
    let mut out: Vec<String> = Vec::new();
    let mut i: usize = 0;
    while i < items.len()
        invariant
            i <= items@.len(),
            out@.len() == i,
            forall|k: int| 0 <= k < i ==> #[trigger] out@[k]@ == items@[k]@,
        decreases items@.len() - i,
    {
        out.push(String::from_str(items[i]));
        i = i + 1;
    }
    out
}

/// Globs of the files a CTranslate2 Whisper repository needs.
pub fn ct2_accept_patterns() -> (r: Vec<String>)
    ensures
        r@.len() == 10,
        r@[0]@ == "**/*.bin"@,
        r@[1]@ == "**/*.json"@,
        r@[2]@ == "**/*.txt"@,
        r@[3]@ == "**/*.model"@,
        r@[4]@ == "**/*.vocab"@,
        r@[5]@ == "**/*.merges"@,
        r@[6]@ == "**/*.spm"@,
        r@[7]@ == "**/*.tiktoken"@,
        r@[8]@ == "**/*.npz"@,
        r@[9]@ == "**/*.npy"@,
{
    let items: [&str; 10] = [
        "**/*.bin",
        "**/*.json",
        "**/*.txt",
        "**/*.model",
        "**/*.vocab",
        "**/*.merges",
        "**/*.spm",
        "**/*.tiktoken",
        "**/*.npz",
        "**/*.npy",
    ];
    strings(&items)
}

/// Globs of the files of a full-precision ONNX Whisper model.
pub fn onnx_float_accept_patterns() -> (r: Vec<String>)
    ensures
        r@.len() == 4,
        r@[0]@ == "**/*.onnx"@,
        r@[1]@ == "**/*.weights"@,
        r@[2]@ == "**/*.txt"@,
        r@[3]@ == "**/*.json"@,
{
    let items: [&str; 4] = ["**/*.onnx", "**/*.weights", "**/*.txt", "**/*.json"];
    strings(&items)
}

/// Globs of the files of an int8 ONNX Whisper model.
pub fn onnx_int8_accept_patterns() -> (r: Vec<String>)
    ensures
        r@.len() == 4,
        r@[0]@ == "**/*.int8.onnx"@,
        r@[1]@ == "**/*.weights"@,
        r@[2]@ == "**/*.txt"@,
        r@[3]@ == "**/*.json"@,
{
    let items: [&str; 4] = ["**/*.int8.onnx", "**/*.weights", "**/*.txt", "**/*.json"];
    strings(&items)
}

fn joined(a: &str, b: &str, c: &str) -> (r: String)
    ensures
        r@ == a@ + b@ + c@,
{
    let mut out = String::from_str(a);
    out.append(b);
    out.append(c);
    out
}

/// A not-yet-installed asset fetched from a file-tree repository.
pub open spec fn fresh_repo_asset(a: ModelAsset, kind: ModelKind) -> bool {
    &&& a.kind == kind
    &&& a.version@ == "main"@
    &&& a.checksum.is_none()
    &&& a.size_bytes == 0
    &&& a.status matches ModelStatus::NotInstalled
    &&& a.source matches Some(ModelSource::HfRepo(h)) && h.revision.is_none()
}

fn repo_asset(kind: ModelKind, name: String, repo: String, accept: Vec<String>, reject: Vec<String>) -> (r: ModelAsset)
    ensures
        fresh_repo_asset(r, kind),
        r.name@ == name@,
        r.source matches Some(ModelSource::HfRepo(h)) && h.repo@ == repo@ && h.accept_globs@ == accept@ && h.reject_globs@ == reject@,
{
    ModelAsset {
        kind,
        name,
        version: String::from_str("main"),
        checksum: None,
        size_bytes: 0,
        status: ModelStatus::NotInstalled,
        source: Some(ModelSource::HfRepo(ModelHfSource { repo, revision: None, accept_globs: accept, reject_globs: reject })),
    }
}

/// The model sizes offered, and whether each has an English-only variant.
fn sizes() -> (r: Vec<(&'static str, bool)>)
    ensures
        r@ == sizes_spec(),
{
    let r = vec![("tiny", true), ("base", true), ("small", true), ("medium", true), ("large-v3", false), ("large-v3-turbo", false)];
    assert(r@ =~= sizes_spec());
    r
}

/// The CTranslate2 Whisper assets: each size, plus `-en` variants where they exist.
pub fn default_whisper_ct2_assets() -> (r: Vec<ModelAsset>)
    ensures
        r@.len() == 10,
        forall|i: int| 0 <= i < r@.len() ==> fresh_repo_asset(#[trigger] r@[i], ModelKind::WhisperCt2),
{
    let table = sizes();
    let mut out: Vec<ModelAsset> = Vec::new();
    let mut i: usize = 0;
    let ghost mut with_en: nat = 0;
    while i < table.len()
        invariant
            i <= 6,
            table@ == sizes_spec(),
            out@.len() == i + en_count(i as int),
            forall|k: int| 0 <= k < out@.len() ==> fresh_repo_asset(#[trigger] out@[k], ModelKind::WhisperCt2),
        decreases 6 - i,
    {
        let (size, has_en) = table[i];
        let repo = if size_is(size, "large-v3") {
            String::from_str("Systran/faster-whisper-large-v3")
        } else if size_is(size, "large-v3-turbo") {
            String::from_str("deepdml/faster-whisper-large-v3-turbo-ct2")
        } else {
            joined("Systran/faster-whisper-", size, "")
        };
        out.push(repo_asset(ModelKind::WhisperCt2, joined("whisper-ct2-", size, ""), repo, ct2_accept_patterns(), Vec::new()));
        if has_en {
            out.push(repo_asset(
                ModelKind::WhisperCt2,
                joined("whisper-ct2-", size, "-en"),
                joined("Systran/faster-whisper-", size, ".en"),
                ct2_accept_patterns(),
                Vec::new(),
            ));
        }
        i = i + 1;
    }
    out
}

pub open spec fn sizes_spec() -> Seq<(&'static str, bool)> {
    seq![("tiny", true), ("base", true), ("small", true), ("medium", true), ("large-v3", false), ("large-v3-turbo", false)]
}

/// English variants among the first `i` sizes.
pub open spec fn en_count(i: int) -> int {
    if i <= 0 { 0 } else if i >= 4 { 4 } else { i }
}

fn size_is(size: &str, name: &str) -> (r: bool)
    ensures
        r == (size@ == name@),
{
    crate::text::str_eq(size, name)
}

/// The ONNX Whisper assets: a float and an int8 asset per size and variant.
pub fn default_whisper_onnx_assets() -> (r: Vec<ModelAsset>)
    ensures
        r@.len() == 20,
        forall|i: int| 0 <= i < r@.len() ==> fresh_repo_asset(#[trigger] r@[i], ModelKind::WhisperOnnx),
{
    let table = sizes();
    let mut out: Vec<ModelAsset> = Vec::new();
    let mut i: usize = 0;
    while i < table.len()
        invariant
            i <= 6,
            table@ == sizes_spec(),
            out@.len() == 2 * i + 2 * en_count(i as int),
            forall|k: int| 0 <= k < out@.len() ==> fresh_repo_asset(#[trigger] out@[k], ModelKind::WhisperOnnx),
        decreases 6 - i,
    {
        let (size, has_en) = table[i];
        let repo_name = if size_is(size, "large-v3") {
            String::from_str("csukuangfj/sherpa-onnx-whisper-large-v3")
        } else if size_is(size, "large-v3-turbo") {
            String::from_str("csukuangfj/sherpa-onnx-whisper-turbo")
        } else {
            joined("csukuangfj/sherpa-onnx-whisper-", size, "")
        };
        out.push(repo_asset(
            ModelKind::WhisperOnnx,
            joined("whisper-onnx-", size, "-float"),
            joined(repo_name.as_str(), "", ""),
            onnx_float_accept_patterns(),
            strings(&["**/*.int8.onnx"]),
        ));
        out.push(repo_asset(ModelKind::WhisperOnnx, joined("whisper-onnx-", size, "-int8"), repo_name, onnx_int8_accept_patterns(), Vec::new()));
        if has_en {
            out.push(repo_asset(
                ModelKind::WhisperOnnx,
                joined("whisper-onnx-", size, "-en-float"),
                joined("csukuangfj/sherpa-onnx-whisper-", size, ".en"),
                onnx_float_accept_patterns(),
                strings(&["**/*.int8.onnx"]),
            ));
            out.push(repo_asset(
                ModelKind::WhisperOnnx,
                joined("whisper-onnx-", size, "-en-int8"),
                joined("csukuangfj/sherpa-onnx-whisper-", size, ".en"),
                onnx_int8_accept_patterns(),
                Vec::new(),
            ));
        }
        i = i + 1;
    }
    out
}

fn archive_asset(kind: ModelKind, name: &str, version: &str, uri: &str, format: ArchiveFormat) -> (r: ModelAsset)
    ensures
        r.kind == kind,
        r.name@ == name@,
        r.version@ == version@,
        r.checksum.is_none(),
        r.size_bytes == 0,
        r.status matches ModelStatus::NotInstalled,
        r.source matches Some(ModelSource::Archive(a)) && a.uri@ == uri@ && a.archive_format == format && a.strip_prefix_components == 0,
{
    ModelAsset {
        kind,
        name: String::from_str(name),
        version: String::from_str(version),
        checksum: None,
        size_bytes: 0,
        status: ModelStatus::NotInstalled,
        source: Some(ModelSource::Archive(ModelArchiveSource {
            uri: String::from_str(uri),
            archive_format: format,
            strip_prefix_components: 0,
        })),
    }
}

/// The whole built-in catalogue: CTranslate2 and ONNX Whisper assets, then
/// the Parakeet recognizer and the Silero VAD model.
pub fn default_assets() -> (r: Vec<ModelAsset>)
    ensures
        r@.len() == 32,
        forall|i: int| 0 <= i < 10 ==> fresh_repo_asset(#[trigger] r@[i], ModelKind::WhisperCt2),
        forall|i: int| 10 <= i < 30 ==> fresh_repo_asset(#[trigger] r@[i], ModelKind::WhisperOnnx),
        r@[30].kind == ModelKind::Parakeet,
        r@[30].name@ == "parakeet-tdt-0.6b-v2-int8"@,
        r@[31].kind == ModelKind::Vad,
        r@[31].name@ == "silero-vad-onnx"@,
        forall|i: int| 0 <= i < r@.len() ==> #[trigger] r@[i].status matches ModelStatus::NotInstalled,
{
    let mut out = default_whisper_ct2_assets();
    let mut onnx = default_whisper_onnx_assets();
    out.append(&mut onnx);
    out.push(archive_asset(
        ModelKind::Parakeet,
        "parakeet-tdt-0.6b-v2-int8",
        "main",
        "https://github.com/k2-fsa/sherpa-onnx/releases/download/asr-models/sherpa-onnx-nemo-parakeet-tdt-0.6b-v2-int8.tar.bz2",
        ArchiveFormat::TarBz2,
    ));
    out.push(archive_asset(
        ModelKind::Vad,
        "silero-vad-onnx",
        "v6",
        "https://raw.githubusercontent.com/snakers4/silero-vad/master/src/silero_vad/data/silero_vad.onnx",
        ArchiveFormat::File,
    ));
    assert forall|i: int| 0 <= i < out@.len() implies #[trigger] out@[i].status matches ModelStatus::NotInstalled by {
        if i < 30 {
            if i < 10 {
                assert(fresh_repo_asset(out@[i], ModelKind::WhisperCt2));
            } else {
                assert(fresh_repo_asset(out@[i], ModelKind::WhisperOnnx));
            }
        }
    }
    out
}

} // verus!
