//! Typed frontend settings, their forward migration, the debug-transcript
//! expiry and the last-known-good recognizer selection.
use vstd::prelude::*;
use crate::asr::AsrBackend;
use crate::injector::PasteShortcut;
use crate::text::{blank, chars_eq_str, is_blank, lower_seq, str_eq, to_lower_chars, trim_end, trim_start, trim_str, trimmed};

verus! {

/// The settings the frontend edits.
#[derive(Debug)]
pub struct FrontendSettings {
    pub hotkey_mode: String,
    pub push_to_talk_hotkey: String,
    pub toggle_to_talk_hotkey: String,
    pub hud_theme: String,
    pub show_hud_overlay: bool,
    pub asr_family: String,
    pub whisper_backend: String,
    pub whisper_model: String,
    pub whisper_model_language: String,
    pub whisper_precision: String,
    pub paste_shortcut: String,
    pub language: String,
    pub auto_detect_language: bool,
    pub autoclean_mode: String,
    pub debug_transcripts: bool,
    pub audio_device_id: Option<String>,
    pub vad_sensitivity: String,
    /// A recognizer name written by older versions, read once and dropped.
    pub legacy_asr_backend: Option<String>,
}

/// The settings as character sequences.
pub struct FrontendView {
    pub hotkey_mode: Seq<char>,
    pub push_to_talk_hotkey: Seq<char>,
    pub toggle_to_talk_hotkey: Seq<char>,
    pub hud_theme: Seq<char>,
    pub show_hud_overlay: bool,
    pub asr_family: Seq<char>,
    pub whisper_backend: Seq<char>,
    pub whisper_model: Seq<char>,
    pub whisper_model_language: Seq<char>,
    pub whisper_precision: Seq<char>,
    pub paste_shortcut: Seq<char>,
    pub language: Seq<char>,
    pub auto_detect_language: bool,
    pub autoclean_mode: Seq<char>,
    pub debug_transcripts: bool,
    pub audio_device_id: Option<Seq<char>>,
    pub vad_sensitivity: Seq<char>,
    pub legacy_asr_backend: Option<Seq<char>>,
}

pub open spec fn opt_view(o: Option<String>) -> Option<Seq<char>> {
    match o {
        Some(s) => Some(s@),
        None => None,
    }
}

impl View for FrontendSettings {
    type V = FrontendView;

    open spec fn view(&self) -> FrontendView {
        FrontendView {
            hotkey_mode: self.hotkey_mode@,
            push_to_talk_hotkey: self.push_to_talk_hotkey@,
            toggle_to_talk_hotkey: self.toggle_to_talk_hotkey@,
            hud_theme: self.hud_theme@,
            show_hud_overlay: self.show_hud_overlay,
            asr_family: self.asr_family@,
            whisper_backend: self.whisper_backend@,
            whisper_model: self.whisper_model@,
            whisper_model_language: self.whisper_model_language@,
            whisper_precision: self.whisper_precision@,
            paste_shortcut: self.paste_shortcut@,
            language: self.language@,
            auto_detect_language: self.auto_detect_language,
            autoclean_mode: self.autoclean_mode@,
            debug_transcripts: self.debug_transcripts,
            audio_device_id: opt_view(self.audio_device_id),
            vad_sensitivity: self.vad_sensitivity@,
            legacy_asr_backend: opt_view(self.legacy_asr_backend),
        }
    }
}


fn copy_string(s: &String) -> (r: String)
    ensures
        r@ == s@,
{
    s.clone()
}

fn copy_opt(s: &Option<String>) -> (r: Option<String>)
    ensures
        opt_view(r) == opt_view(*s),
{
    match s {
        Some(x) => Some(x.clone()),
        None => None,
    }
}

impl FrontendSettings {
    /// Hold mode, `RightAlt`, Parakeet, paste with Ctrl+Shift+V, auto language.
    pub fn default_settings() -> (r: FrontendSettings)
        ensures
            r@.hotkey_mode == "hold"@,
            r@.push_to_talk_hotkey == "RightAlt"@,
            r@.toggle_to_talk_hotkey == "RightAlt"@,
            r@.hud_theme == "system"@,
            !r@.show_hud_overlay,
            r@.asr_family == "parakeet"@,
            r@.whisper_backend == "ct2"@,
            r@.whisper_model == "small"@,
            r@.whisper_model_language == "multi"@,
            r@.whisper_precision == "int8"@,
            r@.paste_shortcut == "ctrl-shift-v"@,
            r@.language == "auto"@,
            r@.auto_detect_language,
            r@.autoclean_mode == "fast"@,
            !r@.debug_transcripts,
            r@.audio_device_id.is_none(),
            r@.vad_sensitivity == "medium"@,
            r@.legacy_asr_backend.is_none(),
    {
        FrontendSettings {
            hotkey_mode: String::from_str("hold"),
            push_to_talk_hotkey: String::from_str("RightAlt"),
            toggle_to_talk_hotkey: String::from_str("RightAlt"),
            hud_theme: String::from_str("system"),
            show_hud_overlay: false,
            asr_family: String::from_str("parakeet"),
            whisper_backend: String::from_str("ct2"),
            whisper_model: String::from_str("small"),
            whisper_model_language: String::from_str("multi"),
            whisper_precision: String::from_str("int8"),
            paste_shortcut: String::from_str("ctrl-shift-v"),
            language: String::from_str("auto"),
            auto_detect_language: true,
            autoclean_mode: String::from_str("fast"),
            debug_transcripts: false,
            audio_device_id: None,
            vad_sensitivity: String::from_str("medium"),
            legacy_asr_backend: None,
        }
    }

    /// A field-by-field copy.
    pub fn duplicate(&self) -> (r: FrontendSettings)
        ensures
            r@ == self@,
    {
        FrontendSettings {
            hotkey_mode: copy_string(&self.hotkey_mode),
            push_to_talk_hotkey: copy_string(&self.push_to_talk_hotkey),
            toggle_to_talk_hotkey: copy_string(&self.toggle_to_talk_hotkey),
            hud_theme: copy_string(&self.hud_theme),
            show_hud_overlay: self.show_hud_overlay,
            asr_family: copy_string(&self.asr_family),
            whisper_backend: copy_string(&self.whisper_backend),
            whisper_model: copy_string(&self.whisper_model),
            whisper_model_language: copy_string(&self.whisper_model_language),
            whisper_precision: copy_string(&self.whisper_precision),
            paste_shortcut: copy_string(&self.paste_shortcut),
            language: copy_string(&self.language),
            auto_detect_language: self.auto_detect_language,
            autoclean_mode: copy_string(&self.autoclean_mode),
            debug_transcripts: self.debug_transcripts,
            audio_device_id: copy_opt(&self.audio_device_id),
            vad_sensitivity: copy_string(&self.vad_sensitivity),
            legacy_asr_backend: copy_opt(&self.legacy_asr_backend),
        }
    }
}

pub open spec fn or_default(v: Seq<char>, d: Seq<char>) -> Seq<char> {
    if v.len() == 0 { d } else { v }
}

/// The forward migration, on views.
pub open spec fn migrated(v: FrontendView) -> FrontendView {
    let ptt0 = if is_blank(v.push_to_talk_hotkey) { "RightAlt"@ } else { v.push_to_talk_hotkey };
    let tog0 = if is_blank(v.toggle_to_talk_hotkey) { "RightAlt"@ } else { v.toggle_to_talk_hotkey };
    let ptt = if ptt0 == "Alt+Shift+A"@ { "RightAlt"@ } else { ptt0 };
    let tog = if tog0 == "Alt+Shift+S"@ { "RightAlt"@ } else { tog0 };
    let family0 = match v.legacy_asr_backend {
        Some(l) => if l == "whisper"@ { "whisper"@ } else { "parakeet"@ },
        None => v.asr_family,
    };
    let backend0 = match v.legacy_asr_backend {
        Some(l) => if l == "whisper"@ { "onnx"@ } else { v.whisper_backend },
        None => v.whisper_backend,
    };
    let model = or_default(v.whisper_model, "small"@);
    let lang0 = or_default(v.whisper_model_language, "multi"@);
    FrontendView {
        push_to_talk_hotkey: ptt,
        toggle_to_talk_hotkey: tog,
        legacy_asr_backend: None,
        asr_family: or_default(family0, "parakeet"@),
        whisper_backend: or_default(backend0, "ct2"@),
        whisper_model: model,
        whisper_model_language: if model == "large-v3"@ || model == "large-v3-turbo"@ { "multi"@ } else { lang0 },
        whisper_precision: or_default(v.whisper_precision, "int8"@),
        autoclean_mode: if v.autoclean_mode == "polish"@ { "fast"@ } else { v.autoclean_mode },
        ..v
    }
}

fn set_if_empty(s: &mut String, d: &str)
    ensures
        final(s)@ == or_default(old(s)@, d@),
{
    if s.as_str().unicode_len() == 0 {
        *s = String::from_str(d);
    }
}

/// Maps legacy fields to current ones, fills empty fields with defaults,
/// replaces the shortcuts that older versions shipped (`Alt+Shift+A`,
/// `Alt+Shift+S`) by the Linux default `RightAlt`, and forces multilingual
/// large models.
pub fn migrate_frontend_settings(settings: &mut FrontendSettings)
    ensures
        final(settings)@ == migrated(old(settings)@),
        migrated(final(settings)@) == final(settings)@,
{
    proof {
        lemma_migration_idempotent(old(settings)@);
    }
    if blank(settings.push_to_talk_hotkey.as_str()) {
        settings.push_to_talk_hotkey = String::from_str("RightAlt");
    }
    if blank(settings.toggle_to_talk_hotkey.as_str()) {
        settings.toggle_to_talk_hotkey = String::from_str("RightAlt");
    }
    if str_eq(settings.push_to_talk_hotkey.as_str(), "Alt+Shift+A") {
        settings.push_to_talk_hotkey = String::from_str("RightAlt");
    }
    if str_eq(settings.toggle_to_talk_hotkey.as_str(), "Alt+Shift+S") {
        settings.toggle_to_talk_hotkey = String::from_str("RightAlt");
    }
    let legacy = settings.legacy_asr_backend.take();
    match legacy {
        Some(l) => {
            if str_eq(l.as_str(), "whisper") {
                settings.asr_family = String::from_str("whisper");
                settings.whisper_backend = String::from_str("onnx");
            } else {
                settings.asr_family = String::from_str("parakeet");
            }
        },
        None => {},
    }
    set_if_empty(&mut settings.asr_family, "parakeet");
    set_if_empty(&mut settings.whisper_backend, "ct2");
    set_if_empty(&mut settings.whisper_model, "small");
    set_if_empty(&mut settings.whisper_model_language, "multi");
    set_if_empty(&mut settings.whisper_precision, "int8");
    if str_eq(settings.autoclean_mode.as_str(), "polish") {
        settings.autoclean_mode = String::from_str("fast");
    }
    if str_eq(settings.whisper_model.as_str(), "large-v3") || str_eq(settings.whisper_model.as_str(), "large-v3-turbo") {
        settings.whisper_model_language = String::from_str("multi");
    }
}

/// The recognizer part of the settings, kept apart as the last known good one.
#[derive(Debug)]
pub struct AsrSelection {
    pub asr_family: String,
    pub whisper_backend: String,
    pub whisper_model: String,
    pub whisper_model_language: String,
    pub whisper_precision: String,
}

impl AsrSelection {
    pub fn from_frontend(settings: &FrontendSettings) -> (r: AsrSelection)
        ensures
            r.asr_family@ == settings.asr_family@,
            r.whisper_backend@ == settings.whisper_backend@,
            r.whisper_model@ == settings.whisper_model@,
            r.whisper_model_language@ == settings.whisper_model_language@,
            r.whisper_precision@ == settings.whisper_precision@,
    {
        AsrSelection {
            asr_family: copy_string(&settings.asr_family),
            whisper_backend: copy_string(&settings.whisper_backend),
            whisper_model: copy_string(&settings.whisper_model),
            whisper_model_language: copy_string(&settings.whisper_model_language),
            whisper_precision: copy_string(&settings.whisper_precision),
        }
    }

    /// Writes the selection into `settings`, leaving every other field alone.
    pub fn apply_to_frontend(&self, settings: &mut FrontendSettings)
        ensures
            final(settings)@ == (FrontendView {
                asr_family: self.asr_family@,
                whisper_backend: self.whisper_backend@,
                whisper_model: self.whisper_model@,
                whisper_model_language: self.whisper_model_language@,
                whisper_precision: self.whisper_precision@,
                ..old(settings)@
            }),
    {
        settings.asr_family = copy_string(&self.asr_family);
        settings.whisper_backend = copy_string(&self.whisper_backend);
        settings.whisper_model = copy_string(&self.whisper_model);
        settings.whisper_model_language = copy_string(&self.whisper_model_language);
        settings.whisper_precision = copy_string(&self.whisper_precision);
    }

    pub fn duplicate(&self) -> (r: AsrSelection)
        ensures
            r.asr_family@ == self.asr_family@,
            r.whisper_backend@ == self.whisper_backend@,
            r.whisper_model@ == self.whisper_model@,
            r.whisper_model_language@ == self.whisper_model_language@,
            r.whisper_precision@ == self.whisper_precision@,
    {
        AsrSelection {
            asr_family: copy_string(&self.asr_family),
            whisper_backend: copy_string(&self.whisper_backend),
            whisper_model: copy_string(&self.whisper_model),
            whisper_model_language: copy_string(&self.whisper_model_language),
            whisper_precision: copy_string(&self.whisper_precision),
        }
    }
}

/// Parakeet, with the Whisper fields at their defaults.
pub fn default_asr_selection() -> (r: AsrSelection)
    ensures
        r.asr_family@ == "parakeet"@,
        r.whisper_backend@ == "ct2"@,
        r.whisper_model@ == "small"@,
        r.whisper_model_language@ == "multi"@,
        r.whisper_precision@ == "int8"@,
{
    AsrSelection {
        asr_family: String::from_str("parakeet"),
        whisper_backend: String::from_str("ct2"),
        whisper_model: String::from_str("small"),
        whisper_model_language: String::from_str("multi"),
        whisper_precision: String::from_str("int8"),
    }
}

/// A short label of the selected recognizer for logs.
pub fn format_asr_selection_label(settings: &FrontendSettings) -> (r: String)
    ensures
        settings.asr_family@ == "whisper"@ ==> r@ == "whisper:"@ + settings.whisper_backend@ + ":"@ + settings.whisper_model@ + ":"@
            + settings.whisper_model_language@ + ":"@ + settings.whisper_precision@,
        settings.asr_family@ != "whisper"@ ==> r@ == "parakeet"@,
{
    if str_eq(settings.asr_family.as_str(), "whisper") {
        let mut out = String::from_str("whisper:");
        out.append(settings.whisper_backend.as_str());
        out.append(":");
        out.append(settings.whisper_model.as_str());
        out.append(":");
        out.append(settings.whisper_model_language.as_str());
        out.append(":");
        out.append(settings.whisper_precision.as_str());
        out
    } else {
        String::from_str("parakeet")
    }
}

/// The shortcut of the active mode.
pub fn current_hotkey(settings: &FrontendSettings) -> (r: String)
    ensures
        settings.hotkey_mode@ == "toggle"@ ==> r@ == settings.toggle_to_talk_hotkey@,
        settings.hotkey_mode@ != "toggle"@ ==> r@ == settings.push_to_talk_hotkey@,
{
    if str_eq(settings.hotkey_mode.as_str(), "toggle") {
        copy_string(&settings.toggle_to_talk_hotkey)
    } else {
        copy_string(&settings.push_to_talk_hotkey)
    }
}

/// The recognizer backend that the settings select.
pub fn parse_asr_backend(settings: &FrontendSettings) -> (r: AsrBackend)
    ensures
        r == (if settings.asr_family@ == "whisper"@ {
            if settings.whisper_backend@ == "onnx"@ { AsrBackend::WhisperOnnx } else { AsrBackend::WhisperCt2 }
        } else {
            AsrBackend::Parakeet
        }),
{
    if str_eq(settings.asr_family.as_str(), "whisper") {
        if str_eq(settings.whisper_backend.as_str(), "onnx") {
            AsrBackend::WhisperOnnx
        } else {
            AsrBackend::WhisperCt2
        }
    } else {
        AsrBackend::Parakeet
    }
}

/// The paste chord a setting names; unknown names fall back to Ctrl+Shift+V.
pub fn parse_paste_shortcut(value: &str) -> (r: PasteShortcut)
    ensures
        r == (if value@ == "ctrl-v"@ { PasteShortcut::CtrlV } else { PasteShortcut::CtrlShiftV }),
{
    if str_eq(value, "ctrl-v") {
        PasteShortcut::CtrlV
    } else {
        PasteShortcut::CtrlShiftV
    }
}

#[derive(Clone, Copy, Debug, PartialEq, Eq, Structural)]
pub enum AutocleanMode {
    Off,
    Fast,
}

/// `off` turns cleanup off; anything else is the fast mode.
pub fn parse_autoclean_mode(value: &str) -> (r: AutocleanMode)
    ensures
        r == (if value@ == "off"@ { AutocleanMode::Off } else { AutocleanMode::Fast }),
{
    if str_eq(value, "off") {
        AutocleanMode::Off
    } else {
        AutocleanMode::Fast
    }
}

pub open spec fn known_size(m: Seq<char>) -> bool {
    m == "tiny"@ || m == "base"@ || m == "small"@ || m == "medium"@ || m == "large-v3"@ || m == "large-v3-turbo"@
}

/// The catalogue name of the Whisper asset that the settings select, for a
/// Whisper backend; `None` for Parakeet.
pub open spec fn whisper_asset_name(v: FrontendView, backend: AsrBackend) -> Option<Seq<char>> {
    let size = if known_size(v.whisper_model) { v.whisper_model } else { "small"@ };
    let english = !(size == "large-v3"@ || size == "large-v3-turbo"@) && v.whisper_model_language == "en"@;
    match backend {
        AsrBackend::WhisperCt2 => Some("whisper-ct2-"@ + size + (if english { "-en"@ } else { ""@ })),
        AsrBackend::WhisperOnnx => Some("whisper-onnx-"@ + size + (if english { "-en"@ } else { ""@ }) + "-"@
            + (if v.whisper_precision == "float"@ { "float"@ } else { "int8"@ })),
        AsrBackend::Parakeet => None,
    }
}

pub fn resolve_whisper_asset_name(settings: &FrontendSettings, backend: AsrBackend) -> (r: Option<String>)
    ensures
        r.is_some() == whisper_asset_name(settings@, backend).is_some(),
        r.is_some() ==> r.unwrap()@ == whisper_asset_name(settings@, backend).unwrap(),
{
    let m = settings.whisper_model.as_str();
    let size: &str = if str_eq(m, "tiny") || str_eq(m, "base") || str_eq(m, "small") || str_eq(m, "medium")
        || str_eq(m, "large-v3") || str_eq(m, "large-v3-turbo") {
        m
    } else {
        "small"
    };
    let large = str_eq(size, "large-v3") || str_eq(size, "large-v3-turbo");
    let english = !large && str_eq(settings.whisper_model_language.as_str(), "en");
    let suffix: &str = if english { "-en" } else { "" };
    match backend {
        AsrBackend::WhisperCt2 => {
            let mut out = String::from_str("whisper-ct2-");
            out.append(size);
            out.append(suffix);
            Some(out)
        },
        AsrBackend::WhisperOnnx => {
            let precision: &str = if str_eq(settings.whisper_precision.as_str(), "float") { "float" } else { "int8" };
            let mut out = String::from_str("whisper-onnx-");
            out.append(size);
            out.append(suffix);
            out.append("-");
            out.append(precision);
            Some(out)
        },
        AsrBackend::Parakeet => None,
    }
}

/// The language tag and auto-detect flag handed to the recognizer: an
/// English-only Whisper selection pins `en`.
pub fn recognizer_language_settings(settings: &FrontendSettings) -> (r: (String, bool))
    ensures
        (settings.asr_family@ == "whisper"@ && settings.whisper_model_language@ == "en"@) ==> r.0@ == "en"@ && !r.1,
        !(settings.asr_family@ == "whisper"@ && settings.whisper_model_language@ == "en"@) ==> r.0@ == settings.language@
            && r.1 == settings.auto_detect_language,
{
    if str_eq(settings.asr_family.as_str(), "whisper") && str_eq(settings.whisper_model_language.as_str(), "en") {
        (String::from_str("en"), false)
    } else {
        (copy_string(&settings.language), settings.auto_detect_language)
    }
}

/// The CTranslate2 compute type for a precision setting.
pub fn ct2_compute_type(precision: &str) -> (r: &'static str)
    ensures
        r@ == (if precision@ == "float"@ { "float16"@ } else { "int8"@ }),
{
    if str_eq(precision, "float") {
        "float16"
    } else {
        "int8"
    }
}

pub open spec fn flag_on(value: Seq<char>) -> bool {
    let v = lower_seq(trimmed(value));
    v == "1"@ || v == "true"@ || v == "yes"@ || v == "y"@ || v == "on"@
}

/// Whether an environment flag value reads as on: `1`, `true`, `yes`, `y`
/// or `on`, ignoring case and surrounding blanks.
pub fn flag_enabled(value: &str) -> (r: bool)
    ensures
        r == flag_on(value@),
{
    let v = to_lower_chars(trim_str(value));
    chars_eq_str(&v, "1") || chars_eq_str(&v, "true") || chars_eq_str(&v, "yes") || chars_eq_str(&v, "y")
        || chars_eq_str(&v, "on")
}

/// Warm-up is skipped in test mode or when asked to, given the values of
/// `OPENFLOW_TEST_MODE` and `OPENFLOW_DISABLE_ASR_WARMUP` (`None` when unset).
pub fn disable_asr_warmup(test_mode: Option<&str>, disable: Option<&str>) -> (r: bool)
    ensures
        r == ((test_mode.is_some() && flag_on(test_mode.unwrap()@)) || (disable.is_some() && flag_on(disable.unwrap()@))),
{
    env_flag(test_mode) || env_flag(disable)
}

/// Model downloads start on their own unless in test mode or asked not to,
/// given `OPENFLOW_TEST_MODE` and `OPENFLOW_DISABLE_MODEL_AUTODOWNLOAD`.
pub fn disable_model_autodownload(test_mode: Option<&str>, disable: Option<&str>) -> (r: bool)
    ensures
        r == ((test_mode.is_some() && flag_on(test_mode.unwrap()@)) || (disable.is_some() && flag_on(disable.unwrap()@))),
{
    env_flag(test_mode) || env_flag(disable)
}

/// Update checks are off in test mode or when asked to, given
/// `OPENFLOW_TEST_MODE` and `OPENFLOW_DISABLE_UPDATE_CHECK`.
pub fn disable_update_checks(test_mode: Option<&str>, disable: Option<&str>) -> (r: bool)
    ensures
        r == ((test_mode.is_some() && flag_on(test_mode.unwrap()@)) || (disable.is_some() && flag_on(disable.unwrap()@))),
{
    env_flag(test_mode) || env_flag(disable)
}

fn env_flag(v: Option<&str>) -> (r: bool)
    ensures
        r == (v.is_some() && flag_on(v.unwrap()@)),
{
    match v {
        Some(x) => flag_enabled(x),
        None => false,
    }
}

/// Seconds for which debug transcripts stay on after being enabled.
pub const DEBUG_TRANSCRIPT_TTL_SECS: i64 = 24 * 3600;

/// What is stored on disk; times are Unix seconds.
pub struct PersistedSettings {
    pub frontend: FrontendSettings,
    pub debug_transcripts_until: Option<i64>,
    pub last_known_good_asr: Option<AsrSelection>,
}

impl PersistedSettings {
    pub fn new() -> (r: PersistedSettings)
        ensures
            r.frontend@.hotkey_mode == "hold"@,
            r.frontend@.asr_family == "parakeet"@,
            !r.frontend.debug_transcripts,
            r.debug_transcripts_until.is_none(),
            r.last_known_good_asr.is_none(),
    {
        PersistedSettings { frontend: FrontendSettings::default_settings(), debug_transcripts_until: None, last_known_good_asr: None }
    }

    /// Clears the debug-transcript flag once its expiry has passed; the flag
    /// is on exactly while an unexpired expiry is stored.
    pub fn expire_debug_transcripts(&mut self, now: i64)
        ensures
            match old(self).debug_transcripts_until {
                Some(t) => if now > t {
                    !final(self).frontend.debug_transcripts && final(self).debug_transcripts_until.is_none()
                } else {
                    final(self).frontend.debug_transcripts && final(self).debug_transcripts_until == Some(t)
                },
                None => !final(self).frontend.debug_transcripts && final(self).debug_transcripts_until.is_none(),
            },
            final(self).frontend@ == (FrontendView { debug_transcripts: final(self).frontend.debug_transcripts, ..old(self).frontend@ }),
    {
        match self.debug_transcripts_until {
            Some(t) => {
                if now > t {
                    self.frontend.debug_transcripts = false;
                    self.debug_transcripts_until = None;
                } else {
                    self.frontend.debug_transcripts = true;
                }
            },
            None => {
                self.frontend.debug_transcripts = false;
            },
        }
    }

    /// The settings as the frontend reads them: expired flags cleared, migrated.
    pub fn read_frontend(&mut self, now: i64) -> (r: FrontendSettings)
        ensures
            r@ == final(self).frontend@,
            r@ == migrated(FrontendView {
                debug_transcripts: match old(self).debug_transcripts_until {
                    Some(t) => now <= t,
                    None => false,
                },
                ..old(self).frontend@
            }),
            final(self).debug_transcripts_until == (match old(self).debug_transcripts_until {
                Some(t) => if now > t { None } else { Some(t) },
                None => None,
            }),
            migrated(r@) == r@,
    {
        self.expire_debug_transcripts(now);
        migrate_frontend_settings(&mut self.frontend);
        self.frontend.duplicate()
    }

    /// Stores new frontend settings, migrated; enabling debug transcripts
    /// starts their expiry window.
    pub fn write_frontend(&mut self, settings: FrontendSettings, now: i64)
        requires
            now <= i64::MAX - DEBUG_TRANSCRIPT_TTL_SECS,
        ensures
            final(self).frontend@ == migrated(settings@),
            settings.debug_transcripts ==> final(self).debug_transcripts_until == Some((now + DEBUG_TRANSCRIPT_TTL_SECS) as i64),
            !settings.debug_transcripts ==> final(self).debug_transcripts_until.is_none(),
    {
        let mut settings = settings;
        migrate_frontend_settings(&mut settings);
        if settings.debug_transcripts {
            self.debug_transcripts_until = Some(now + DEBUG_TRANSCRIPT_TTL_SECS);
        } else {
            self.debug_transcripts_until = None;
        }
        self.frontend = settings;
    }
}

/// One migration pass reaches a fixed point: migrating again changes
/// nothing, so settings stored after a load read back the same.
pub proof fn lemma_migration_idempotent(v: FrontendView)
    ensures
        migrated(migrated(v)) == migrated(v),
{
    reveal_strlit("RightAlt");
    assert(trim_start("RightAlt"@) == "RightAlt"@);
    assert(trim_end("RightAlt"@) == "RightAlt"@);
    assert(!is_blank("RightAlt"@));
    reveal_strlit("Alt+Shift+A");
    reveal_strlit("Alt+Shift+S");
    reveal_strlit("parakeet");
    reveal_strlit("whisper");
    reveal_strlit("onnx");
    reveal_strlit("ct2");
    reveal_strlit("small");
    reveal_strlit("multi");
    reveal_strlit("int8");
    reveal_strlit("polish");
    reveal_strlit("fast");
    assert("RightAlt"@.len() == 8);
    assert("Alt+Shift+A"@.len() == 11);
    assert("Alt+Shift+S"@.len() == 11);
    assert("RightAlt"@ != "Alt+Shift+A"@);
    assert("RightAlt"@ != "Alt+Shift+S"@);
    assert("fast"@.len() == 4);
    assert("polish"@.len() == 6);
    assert("fast"@ != "polish"@);
    let m = migrated(v);
    let mm = migrated(m);
    assert(mm.push_to_talk_hotkey == m.push_to_talk_hotkey);
    assert(mm =~= m);
}


/// Settings written and read back before their debug-transcript window
/// expires come back as one migration of what was written: `write_frontend`
/// stores `migrated(s)` with expiry `now + TTL`, and `read_frontend` at
/// `later` yields exactly that again.
pub proof fn lemma_write_then_read(s: FrontendView, now: i64, later: i64)
    requires
        now <= i64::MAX - DEBUG_TRANSCRIPT_TTL_SECS,
        s.debug_transcripts ==> later <= now + DEBUG_TRANSCRIPT_TTL_SECS,
    ensures
        ({
            let until: Option<i64> = if s.debug_transcripts { Some((now + DEBUG_TRANSCRIPT_TTL_SECS) as i64) } else { None };
            migrated(FrontendView {
                debug_transcripts: match until {
                    Some(t) => later <= t,
                    None => false,
                },
                ..migrated(s)
            }) == migrated(s)
        }),
{
    lemma_migration_idempotent(s);
    let until: Option<i64> = if s.debug_transcripts { Some((now + DEBUG_TRANSCRIPT_TTL_SECS) as i64) } else { None };
    let v = FrontendView {
        debug_transcripts: match until {
            Some(t) => later <= t,
            None => false,
        },
        ..migrated(s)
    };
    assert(v == migrated(s));
}
} // verus!
