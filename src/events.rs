//! Outbound event payloads and the decisions that choose them at the end of
//! a session; Linux capability reports and the checks made on their inputs.
use vstd::prelude::*;
use crate::audio::SkipReason;
use crate::injector::{OutputInjectionError, PasteFailureKind, PasteFailureStep, PasteShortcut};
use crate::text::{blank, chars_of, is_blank, str_eq};

verus! {

/// What the Linux capability probe found.
#[derive(Debug)]
pub struct LinuxPermissionsStatus {
    pub supported: bool,
    pub wayland_session: bool,
    pub x11_session: bool,
    pub x11_display_available: bool,
    pub x11_hotkeys_available: bool,
    pub x11_xtest_available: bool,
    pub xdg_runtime_dir_available: bool,
    pub evdev_readable: bool,
    pub uinput_writable: bool,
    pub clipboard_backend: String,
    pub wl_copy_available: bool,
    pub wl_paste_available: bool,
    pub xclip_available: bool,
    pub pkexec_available: bool,
    pub setfacl_available: bool,
    pub details: Vec<String>,
}

/// What the probes of the running system found.
#[derive(Debug)]
pub struct CapabilityProbe {
    pub xdg_session_type: String,
    pub wayland_display: String,
    pub display: String,
    pub xdg_runtime_dir_available: bool,
    /// On X11: whether the display answered and XTEST is present, or why the connection failed.
    pub x11: Result<(bool, bool), String>,
    /// On Wayland: whether a keyboard under `/dev/input` is readable, or why not.
    pub evdev: Result<(), String>,
    /// On Wayland: whether `/dev/uinput` is writable, or why not, with an ACL hint.
    pub uinput: Result<(), (String, Option<String>)>,
    pub wl_copy: bool,
    pub wl_paste: bool,
    pub xclip: bool,
    pub pkexec: bool,
    pub setfacl: bool,
}

pub open spec fn has_detail(details: Seq<String>, m: Seq<char>) -> bool {
    exists|i: int| 0 <= i < details.len() && #[trigger] details[i]@ == m
}

fn push_detail(details: &mut Vec<String>, m: &str)
    ensures
        final(details)@.len() == old(details)@.len() + 1,
        final(details)@.last()@ == m@,
        forall|i: int| 0 <= i < old(details)@.len() ==> final(details)@[i] == old(details)@[i],
{
    details.push(String::from_str(m));
}

/// Builds the capability report from probe results: which session runs,
/// which helpers exist, and a sentence for every missing piece.
pub fn permissions_status(probe: CapabilityProbe) -> (r: LinuxPermissionsStatus)
    ensures
        r.supported,
        r.wayland_session == (probe.xdg_session_type@ == "wayland"@ || probe.wayland_display@.len() > 0),
        r.x11_session == (!r.wayland_session && !is_blank(probe.display@)),
        r.x11_display_available == (r.x11_session && (probe.x11 matches Ok((d, _)) && d)),
        r.x11_hotkeys_available == r.x11_display_available,
        r.x11_xtest_available == (r.x11_session && (probe.x11 matches Ok((_, x)) && x)),
        r.evdev_readable == (r.wayland_session && probe.evdev is Ok),
        r.uinput_writable == (r.wayland_session && probe.uinput is Ok),
        r.xdg_runtime_dir_available == probe.xdg_runtime_dir_available,
        r.clipboard_backend@ == (if r.wayland_session { "wayland"@ } else { "x11"@ }),
        r.wl_copy_available == probe.wl_copy,
        r.wl_paste_available == probe.wl_paste,
        r.xclip_available == probe.xclip,
        r.pkexec_available == probe.pkexec,
        r.setfacl_available == probe.setfacl,
        r.wayland_session && !probe.wl_copy ==> has_detail(r.details@, "Missing wl-copy (install wl-clipboard)"@),
        r.wayland_session && !probe.wl_paste ==> has_detail(r.details@, "Missing wl-paste (install wl-clipboard)"@),
        r.wayland_session && !probe.xdg_runtime_dir_available ==> has_detail(r.details@, "Missing XDG_RUNTIME_DIR (Wayland clipboard may not work)"@),
        !r.wayland_session && !probe.xclip ==> has_detail(r.details@, "Missing xclip (install xclip for X11 clipboard)"@),
        r.wayland_session && !probe.pkexec ==> has_detail(r.details@, "Missing pkexec (install polkit)"@),
        r.wayland_session && !probe.setfacl ==> has_detail(r.details@, "Missing setfacl (install acl)"@),
{
    let mut details: Vec<String> = Vec::new();
    let wayland = is_wayland_session(probe.xdg_session_type.as_str(), probe.wayland_display.as_str());
    if !wayland {
        let mut m = String::from_str("Not running under Wayland (XDG_SESSION_TYPE=");
        if probe.xdg_session_type.as_str().unicode_len() == 0 {
            m.append("unset");
        } else {
            m.append(probe.xdg_session_type.as_str());
        }
        m.append(")");
        details.push(m);
    }
    let x11_session = !wayland && !blank(probe.display.as_str());
    let mut display_ok = false;
    let mut xtest_ok = false;
    if x11_session {
        match &probe.x11 {
            Ok((d, x)) => {
                display_ok = *d;
                xtest_ok = *x;
                if *d && !*x {
                    push_detail(&mut details, "Missing XTEST (X11 paste injection may not work)");
                }
            },
            Err(m) => {
                details.push(m.clone());
            },
        }
    }
    let mut evdev_readable = false;
    let mut uinput_writable = false;
    if wayland {
        match &probe.evdev {
            Ok(_) => {
                evdev_readable = true;
            },
            Err(m) => {
                details.push(m.clone());
            },
        }
        match &probe.uinput {
            Ok(_) => {
                uinput_writable = true;
            },
            Err((m, hint)) => {
                details.push(m.clone());
                if let Some(h) = hint {
                    details.push(h.clone());
                }
            },
        }
    }
    let ghost mark = details@.len();
    if wayland {
        if !probe.xdg_runtime_dir_available {
            push_detail(&mut details, "Missing XDG_RUNTIME_DIR (Wayland clipboard may not work)");
        }
        if !probe.wl_copy {
            push_detail(&mut details, "Missing wl-copy (install wl-clipboard)");
        }
        if !probe.wl_paste {
            push_detail(&mut details, "Missing wl-paste (install wl-clipboard)");
        }
    } else if !probe.xclip {
        push_detail(&mut details, "Missing xclip (install xclip for X11 clipboard)");
    }
    proof {
        if wayland && !probe.xdg_runtime_dir_available {
            assert(details@[mark as int]@ == "Missing XDG_RUNTIME_DIR (Wayland clipboard may not work)"@);
        }
        if !wayland && !probe.xclip {
            assert(details@[mark as int]@ == "Missing xclip (install xclip for X11 clipboard)"@);
        }
        if wayland && !probe.wl_copy {
            let k = mark + (if !probe.xdg_runtime_dir_available { 1int } else { 0int });
            assert(details@[k]@ == "Missing wl-copy (install wl-clipboard)"@);
        }
        if wayland && !probe.wl_paste {
            assert(details@.last()@ == "Missing wl-paste (install wl-clipboard)"@);
            assert(details@[details@.len() - 1]@ == "Missing wl-paste (install wl-clipboard)"@);
        }
    }
    let ghost before_policy = details@;
    if wayland && !probe.pkexec {
        push_detail(&mut details, "Missing pkexec (install polkit)");
        assert(details@[details@.len() - 1]@ == "Missing pkexec (install polkit)"@);
    }
    let ghost before_acl = details@;
    if wayland && !probe.setfacl {
        push_detail(&mut details, "Missing setfacl (install acl)");
        assert(details@[details@.len() - 1]@ == "Missing setfacl (install acl)"@);
    }
    proof {
        assert forall|m: Seq<char>| has_detail(before_policy, m) implies has_detail(details@, m) by {
            let i = choose|i: int| 0 <= i < before_policy.len() && #[trigger] before_policy[i]@ == m;
            assert(details@[i] == before_policy[i]);
        }
        assert forall|m: Seq<char>| has_detail(before_acl, m) implies has_detail(details@, m) by {
            let i = choose|i: int| 0 <= i < before_acl.len() && #[trigger] before_acl[i]@ == m;
            assert(details@[i] == before_acl[i]);
        }
    }
    LinuxPermissionsStatus {
        supported: true,
        wayland_session: wayland,
        x11_session,
        x11_display_available: display_ok,
        x11_hotkeys_available: display_ok,
        x11_xtest_available: xtest_ok,
        xdg_runtime_dir_available: probe.xdg_runtime_dir_available,
        evdev_readable,
        uinput_writable,
        clipboard_backend: String::from_str(if wayland { "wayland" } else { "x11" }),
        wl_copy_available: probe.wl_copy,
        wl_paste_available: probe.wl_paste,
        xclip_available: probe.xclip,
        pkexec_available: probe.pkexec,
        setfacl_available: probe.setfacl,
        details,
    }
}

#[derive(Debug)]
pub struct PasteFailedPayload {
    pub step: String,
    pub message: String,
    pub shortcut: String,
    pub transcript_on_clipboard: bool,
    pub linux: Option<LinuxPermissionsStatus>,
}

#[derive(Debug)]
pub struct PasteSucceededPayload {
    pub shortcut: String,
    pub chars: usize,
}

/// The capture device to open; `None` is the default input.
#[derive(Debug)]
pub struct AudioPipelineConfig {
    pub device_id: Option<String>,
}

#[derive(Debug)]
pub struct AudioDeviceInfo {
    pub id: String,
    pub name: String,
    pub is_default: bool,
}

/// The event that reports how an injection ended.
#[derive(Debug)]
pub enum PasteOutcome {
    Succeeded(PasteSucceededPayload),
    Failed(PasteFailedPayload),
    Unconfirmed(PasteFailedPayload),
}

/// Chooses the paste event for an injection result. `chars` is the
/// transcript's length in bytes.
pub fn paste_outcome(result: Result<(), OutputInjectionError>, shortcut: PasteShortcut, chars: usize, linux: Option<LinuxPermissionsStatus>) -> (r: PasteOutcome)
    ensures
        match result {
            Ok(_) => r matches PasteOutcome::Succeeded(p) && p.chars == chars && p.shortcut@ == shortcut_name(shortcut)@,
            Err(OutputInjectionError::Paste(f)) => {
                let fits = |p: PasteFailedPayload| p.message@ == f.message@ && p.transcript_on_clipboard == f.transcript_on_clipboard
                    && p.step@ == step_name(f.step)@ && p.shortcut@ == shortcut_name(shortcut)@ && p.linux == linux;
                if f.kind == PasteFailureKind::Unconfirmed {
                    r matches PasteOutcome::Unconfirmed(p) && fits(p)
                } else {
                    r matches PasteOutcome::Failed(p) && fits(p)
                }
            },
            Err(OutputInjectionError::Copy(m)) => r matches PasteOutcome::Failed(p) && p.message@ == m@ && p.step@ == "clipboard"@
                && p.shortcut@ == "unknown"@ && !p.transcript_on_clipboard && p.linux == linux,
        },
{
    match result {
        Ok(_) => PasteOutcome::Succeeded(PasteSucceededPayload { shortcut: String::from_str(shortcut.as_str()), chars }),
        Err(OutputInjectionError::Paste(f)) => {
            let payload = PasteFailedPayload {
                step: String::from_str(f.step.as_str()),
                message: f.message,
                shortcut: String::from_str(shortcut.as_str()),
                transcript_on_clipboard: f.transcript_on_clipboard,
                linux,
            };
            if f.kind == PasteFailureKind::Unconfirmed {
                PasteOutcome::Unconfirmed(payload)
            } else {
                PasteOutcome::Failed(payload)
            }
        },
        Err(OutputInjectionError::Copy(m)) => PasteOutcome::Failed(PasteFailedPayload {
            step: String::from_str("clipboard"),
            message: m,
            shortcut: String::from_str("unknown"),
            transcript_on_clipboard: false,
            linux,
        }),
    }
}

/// The event name of a paste chord.
pub open spec fn shortcut_name(s: PasteShortcut) -> &'static str {
    match s {
        PasteShortcut::CtrlV => "ctrl-v",
        PasteShortcut::CtrlShiftV => "ctrl-shift-v",
    }
}

/// The event name of the step that failed.
pub open spec fn step_name(s: PasteFailureStep) -> &'static str {
    match s {
        PasteFailureStep::ClipboardWrite => "clipboard",
        PasteFailureStep::KeyInject => "uinput",
    }
}

/// What to do with a recognizer's transcript.
#[derive(Debug, PartialEq, Eq)]
pub enum TranscriptOutcome {
    /// Report the skip; nothing is emitted as output.
    Skip(SkipReason),
    /// Emit the transcript and, in paste mode, inject it.
    Deliver,
}

/// A blank transcript is skipped as empty; a blank cleaned transcript is
/// skipped as emptied by cleanup; otherwise the cleaned text is delivered.
pub fn transcript_outcome(raw: &str, cleaned: &str) -> (r: TranscriptOutcome)
    ensures
        is_blank(raw@) ==> r == TranscriptOutcome::Skip(SkipReason::EmptyTranscript),
        !is_blank(raw@) && is_blank(cleaned@) ==> r == TranscriptOutcome::Skip(SkipReason::CleanEmpty),
        !is_blank(raw@) && !is_blank(cleaned@) ==> r == TranscriptOutcome::Deliver,
{
    if blank(raw) {
        TranscriptOutcome::Skip(SkipReason::EmptyTranscript)
    } else if blank(cleaned) {
        TranscriptOutcome::Skip(SkipReason::CleanEmpty)
    } else {
        TranscriptOutcome::Deliver
    }
}

/// A Wayland session is announced by `XDG_SESSION_TYPE=wayland` or a
/// non-empty `WAYLAND_DISPLAY`.
pub fn is_wayland_session(xdg_session_type: &str, wayland_display: &str) -> (r: bool)
    ensures
        r == (xdg_session_type@ == "wayland"@ || wayland_display@.len() > 0),
{
    str_eq(xdg_session_type, "wayland") || wayland_display.unicode_len() > 0
}

/// An X display is usable when `DISPLAY` is set to something not blank.
pub fn has_x11_display(display: Option<&str>) -> (r: bool)
    ensures
        r == (display.is_some() && !is_blank(display.unwrap()@)),
{
    match display {
        Some(d) => !blank(d),
        None => false,
    }
}

pub open spec fn username_char(c: char) -> bool {
    ('a' <= c && c <= 'z') || ('A' <= c && c <= 'Z') || ('0' <= c && c <= '9') || c == '_' || c == '-' || c == '.'
}

/// A user name may reach the privileged repair script only when it is not
/// empty and holds nothing but ASCII letters, digits, `_`, `-` and `.`.
pub fn valid_username(user: &str) -> (r: bool)
    ensures
        r == (user@.len() > 0 && forall|i: int| 0 <= i < user@.len() ==> username_char(#[trigger] user@[i])),
{
    let v = chars_of(user);
    if v.len() == 0 {
        return false;
    }
    let mut i: usize = 0;
    while i < v.len()
        invariant
            v@ == user@,
            i <= v@.len(),
            forall|j: int| 0 <= j < i ==> username_char(#[trigger] user@[j]),
        decreases v@.len() - i,
    {
        let c = v[i];
        if !(('a' <= c && c <= 'z') || ('A' <= c && c <= 'Z') || ('0' <= c && c <= '9') || c == '_' || c == '-' || c == '.') {
            assert(!username_char(user@[i as int]));
            return false;
        }
        i = i + 1;
    }
    true
}

/// The clipboard type to save: plain UTF-8 text, plain text, else the first
/// `text/` type offered.
pub fn choose_preferred_type_wayland(types: &Vec<String>) -> (r: Option<usize>)
    ensures
        (exists|i: int| 0 <= i < types@.len() && types@[i]@ == "text/plain;charset=utf-8"@) ==> (r matches Some(i) && types@[i as int]@ == "text/plain;charset=utf-8"@),
        !(exists|i: int| 0 <= i < types@.len() && types@[i]@ == "text/plain;charset=utf-8"@) && (exists|i: int| 0 <= i < types@.len() && types@[i]@ == "text/plain"@) ==> (r matches Some(i) && types@[i as int]@ == "text/plain"@),
        r matches Some(i) ==> i < types@.len(),
        !(exists|i: int| 0 <= i < types@.len() && (types@[i]@ == "text/plain;charset=utf-8"@ || types@[i]@ == "text/plain"@)) ==> match r {
            Some(i) => types@[i as int]@.len() >= 5 && types@[i as int]@.subrange(0, 5) == "text/"@,
            None => forall|i: int| 0 <= i < types@.len() ==> !(types@[i]@.len() >= 5 && types@[i]@.subrange(0, 5) == "text/"@),
        },
{
    match find_exact(types, "text/plain;charset=utf-8") {
        Some(i) => {
            return Some(i);
        },
        None => {},
    }
    match find_exact(types, "text/plain") {
        Some(i) => {
            return Some(i);
        },
        None => {},
    }
    proof {
        reveal_strlit("text/");
    }
    let mut i: usize = 0;
    while i < types.len()
        invariant
            i <= types@.len(),
            forall|j: int| 0 <= j < types@.len() ==> types@[j]@ != "text/plain;charset=utf-8"@,
            forall|j: int| 0 <= j < types@.len() ==> types@[j]@ != "text/plain"@,
            forall|j: int| 0 <= j < i ==> !(types@[j]@.len() >= 5 && types@[j]@.subrange(0, 5) == "text/"@),
        decreases types@.len() - i,
    {
        if starts_with_text(types[i].as_str()) {
            return Some(i);
        }
        i = i + 1;
    }
    None
}

fn find_exact(types: &Vec<String>, t: &str) -> (r: Option<usize>)
    ensures
        r matches Some(i) ==> i < types@.len() && types@[i as int]@ == t@,
        r is None ==> forall|i: int| 0 <= i < types@.len() ==> types@[i]@ != t@,
{
    let mut i: usize = 0;
    while i < types.len()
        invariant
            i <= types@.len(),
            forall|j: int| 0 <= j < i ==> types@[j]@ != t@,
        decreases types@.len() - i,
    {
        if str_eq(types[i].as_str(), t) {
            return Some(i);
        }
        i = i + 1;
    }
    None
}

fn starts_with_text(s: &str) -> (r: bool)
    ensures
        r == (s@.len() >= 5 && s@.subrange(0, 5) == "text/"@),
{
    proof {
        reveal_strlit("text/");
    }
    let n = s.unicode_len();
    if n < 5 {
        return false;
    }
    let pre = s.substring_char(0, 5);
    str_eq(pre, "text/")
}

} // verus!
