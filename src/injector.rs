//! Output injection: paste settings, the failure taxonomy and the
//! clipboard-save / write / confirm / chord / hold / restore protocol.
use vstd::prelude::*;

verus! {

#[derive(Clone, Copy, Debug, PartialEq, Eq, Structural)]
pub enum OutputAction {
    Paste,
    Copy,
}

#[derive(Clone, Copy, Debug, PartialEq, Eq, Structural)]
pub enum PasteShortcut {
    CtrlV,
    CtrlShiftV,
}

impl PasteShortcut {
    pub fn default_shortcut() -> (r: PasteShortcut)
        ensures
            r == PasteShortcut::CtrlShiftV,
    {
        PasteShortcut::CtrlShiftV
    }

    /// The name used in events and settings.
    pub fn as_str(&self) -> (r: &'static str)
        ensures
            r@ == (match *self {
                PasteShortcut::CtrlV => "ctrl-v",
                PasteShortcut::CtrlShiftV => "ctrl-shift-v",
            })@,
    {
        match self {
            PasteShortcut::CtrlV => "ctrl-v",
            PasteShortcut::CtrlShiftV => "ctrl-shift-v",
        }
    }
}

#[derive(Clone, Copy, Debug, PartialEq, Eq, Structural)]
pub enum PasteFailureStep {
    ClipboardWrite,
    KeyInject,
}

impl PasteFailureStep {
    pub fn as_str(&self) -> (r: &'static str)
        ensures
            r@ == (match *self {
                PasteFailureStep::ClipboardWrite => "clipboard",
                PasteFailureStep::KeyInject => "uinput",
            })@,
    {
        match self {
            PasteFailureStep::ClipboardWrite => "clipboard",
            PasteFailureStep::KeyInject => "uinput",
        }
    }
}

#[derive(Clone, Copy, Debug, PartialEq, Eq, Structural)]
pub enum PasteFailureKind {
    Failed,
    Unconfirmed,
}

impl PasteFailureKind {
    pub fn as_str(&self) -> (r: &'static str)
        ensures
            r@ == (match *self {
                PasteFailureKind::Failed => "failed",
                PasteFailureKind::Unconfirmed => "unconfirmed",
            })@,
    {
        match self {
            PasteFailureKind::Failed => "failed",
            PasteFailureKind::Unconfirmed => "unconfirmed",
        }
    }
}

/// A failed or unconfirmed paste.
#[derive(Clone, Debug)]
pub struct PasteFailure {
    pub step: PasteFailureStep,
    pub kind: PasteFailureKind,
    pub message: String,
    pub transcript_on_clipboard: bool,
}

#[derive(Clone, Debug)]
pub enum OutputInjectionError {
    Paste(PasteFailure),
    Copy(String),
}

/// Clipboard contents saved before the transcript is written.
#[derive(Clone, Debug)]
pub struct ClipboardSnapshot {
    pub mime: String,
    pub data: Vec<u8>,
}

/// Holds the configured paste chord.
pub struct OutputInjector {
    paste_shortcut: PasteShortcut,
}

impl OutputInjector {
    pub closed spec fn shortcut(&self) -> PasteShortcut {
        self.paste_shortcut
    }

    pub fn new() -> (r: OutputInjector)
        ensures
            r.shortcut() == PasteShortcut::CtrlShiftV,
    {
        OutputInjector { paste_shortcut: PasteShortcut::default_shortcut() }
    }

    pub fn set_paste_shortcut(&mut self, shortcut: PasteShortcut)
        ensures
            final(self).shortcut() == shortcut,
    {
        self.paste_shortcut = shortcut;
    }

    pub fn current_paste_shortcut(&self) -> (r: PasteShortcut)
        ensures
            r == self.shortcut(),
    {
        self.paste_shortcut
    }

    /// Starts injecting a transcript: returns the protocol and its first step.
    /// Pasting begins by saving the clipboard; copying begins by writing it.
    pub fn inject(&self, action: OutputAction) -> (r: (PasteProtocol, PasteAction))
        ensures
            r.0.shortcut == self.shortcut(),
            r.0.action == action,
            r.0.previous.is_none(),
            action == OutputAction::Paste ==> r.0.stage == PasteStage::Snapshot && r.1 == PasteAction::SnapshotClipboard,
            action == OutputAction::Copy ==> r.0.stage == PasteStage::Write && r.1 == PasteAction::WriteClipboard,
    {
        match action {
            OutputAction::Paste => (
                PasteProtocol { stage: PasteStage::Snapshot, action, shortcut: self.paste_shortcut, previous: None },
                PasteAction::SnapshotClipboard,
            ),
            OutputAction::Copy => (
                PasteProtocol { stage: PasteStage::Write, action, shortcut: self.paste_shortcut, previous: None },
                PasteAction::WriteClipboard,
            ),
        }
    }
}

/// Where the protocol stands.
#[derive(Clone, Copy, Debug, PartialEq, Eq, Structural)]
pub enum PasteStage {
    Snapshot,
    Write,
    Confirm,
    Chord,
    RewriteAfterChordFailure,
    Hold,
    Check,
    Restore,
    Done,
}

/// What the caller is to do next.
#[derive(Debug)]
pub enum PasteAction {
    /// Save the current clipboard contents and type.
    SnapshotClipboard,
    /// Write the transcript to the clipboard.
    WriteClipboard,
    /// Poll every 10 ms, for up to 250 ms, until the clipboard equals the transcript.
    ConfirmClipboard,
    /// Inject the paste chord.
    SendChord(PasteShortcut),
    /// Put the transcript back on the clipboard (the chord failed); then finish.
    RewriteClipboard,
    /// Keep the transcript on the clipboard for 650 ms.
    Hold,
    /// Tell whether the clipboard still equals the transcript.
    CheckClipboard,
    /// Write the saved snapshot back.
    RestoreClipboard,
    /// The protocol is over.
    Done(Result<(), OutputInjectionError>),
}

/// Milliseconds between clipboard polls while confirming.
pub const CONFIRM_POLL_MS: u64 = 10;
/// Time allowed for the clipboard to show the transcript.
pub const CONFIRM_TIMEOUT_MS: u64 = 250;
/// Time the transcript is held on the clipboard before restoring.
pub const HOLD_MS: u64 = 650;

/// The paste protocol of one transcript.
pub struct PasteProtocol {
    pub stage: PasteStage,
    pub action: OutputAction,
    pub shortcut: PasteShortcut,
    pub previous: Option<ClipboardSnapshot>,
}

pub open spec fn is_failure(a: PasteAction, step: PasteFailureStep, kind: PasteFailureKind, on_clipboard: bool) -> bool {
    a matches PasteAction::Done(Err(OutputInjectionError::Paste(f))) && f.step == step && f.kind == kind
        && f.transcript_on_clipboard == on_clipboard
}

fn fail(step: PasteFailureStep, kind: PasteFailureKind, message: String, on_clipboard: bool) -> (r: PasteAction)
    ensures
        is_failure(r, step, kind, on_clipboard),
        r matches PasteAction::Done(Err(OutputInjectionError::Paste(f))) && f.message@ == message@,
{
    PasteAction::Done(Err(OutputInjectionError::Paste(PasteFailure { step, kind, message, transcript_on_clipboard: on_clipboard })))
}

impl PasteProtocol {
    /// The clipboard was read (`None` when it could not be saved).
    pub fn on_snapshot(&mut self, previous: Option<ClipboardSnapshot>) -> (r: PasteAction)
        requires
            old(self).stage == PasteStage::Snapshot,
        ensures
            final(self).stage == PasteStage::Write,
            final(self).previous == previous,
            final(self).action == old(self).action,
            final(self).shortcut == old(self).shortcut,
            r == PasteAction::WriteClipboard,
    {
        self.previous = previous;
        self.stage = PasteStage::Write;
        PasteAction::WriteClipboard
    }

    /// The transcript was written, or writing failed with `Err(message)`.
    pub fn on_written(&mut self, written: Result<(), String>) -> (r: PasteAction)
        requires
            old(self).stage == PasteStage::Write,
        ensures
            final(self).previous == old(self).previous,
            final(self).action == old(self).action,
            final(self).shortcut == old(self).shortcut,
            old(self).action == OutputAction::Copy ==> final(self).stage == PasteStage::Done && match written {
                Ok(_) => (r matches PasteAction::Done(Ok(_))),
                Err(m) => (r matches PasteAction::Done(Err(OutputInjectionError::Copy(x))) && x@ == m@),
            },
            old(self).action == OutputAction::Paste ==> match written {
                Ok(_) => final(self).stage == PasteStage::Confirm && (r matches PasteAction::ConfirmClipboard),
                Err(m) => final(self).stage == PasteStage::Done && is_failure(r, PasteFailureStep::ClipboardWrite, PasteFailureKind::Failed, false)
                    && (r matches PasteAction::Done(Err(OutputInjectionError::Paste(f))) && f.message@ == m@),
            },
    {
        match self.action {
            OutputAction::Copy => {
                self.stage = PasteStage::Done;
                match written {
                    Ok(_) => PasteAction::Done(Ok(())),
                    Err(m) => PasteAction::Done(Err(OutputInjectionError::Copy(m))),
                }
            },
            OutputAction::Paste => match written {
                Ok(_) => {
                    self.stage = PasteStage::Confirm;
                    PasteAction::ConfirmClipboard
                },
                Err(m) => {
                    self.stage = PasteStage::Done;
                    fail(PasteFailureStep::ClipboardWrite, PasteFailureKind::Failed, m, false)
                },
            },
        }
    }

    /// Whether the clipboard showed the transcript within the confirmation window.
    pub fn on_confirmed(&mut self, confirmed: bool) -> (r: PasteAction)
        requires
            old(self).stage == PasteStage::Confirm,
        ensures
            final(self).previous == old(self).previous,
            final(self).action == old(self).action,
            final(self).shortcut == old(self).shortcut,
            confirmed ==> final(self).stage == PasteStage::Chord && (r matches PasteAction::SendChord(s) && s == old(self).shortcut),
            !confirmed ==> final(self).stage == PasteStage::Done && is_failure(r, PasteFailureStep::ClipboardWrite, PasteFailureKind::Unconfirmed, true),
    {
        if confirmed {
            self.stage = PasteStage::Chord;
            PasteAction::SendChord(self.shortcut)
        } else {
            self.stage = PasteStage::Done;
            fail(
                PasteFailureStep::ClipboardWrite,
                PasteFailureKind::Unconfirmed,
                String::from_str("Transcript not observed on clipboard before paste; transcript left on clipboard."),
                true,
            )
        }
    }

    /// The chord was injected, or injection failed with `Err(message)`.
    pub fn on_chord(&mut self, sent: Result<(), String>) -> (r: PasteAction)
        requires
            old(self).stage == PasteStage::Chord,
        ensures
            final(self).previous == old(self).previous,
            final(self).action == old(self).action,
            final(self).shortcut == old(self).shortcut,
            sent.is_ok() ==> final(self).stage == PasteStage::Hold && r matches PasteAction::Hold,
            sent.is_err() ==> final(self).stage == PasteStage::RewriteAfterChordFailure && r matches PasteAction::RewriteClipboard,
    {
        match sent {
            Ok(_) => {
                self.stage = PasteStage::Hold;
                PasteAction::Hold
            },
            Err(_) => {
                self.stage = PasteStage::RewriteAfterChordFailure;
                PasteAction::RewriteClipboard
            },
        }
    }

    /// The transcript was put back after a failed chord; `message` is the
    /// chord's failure. The transcript stays on the clipboard.
    pub fn on_rewritten(&mut self, message: String) -> (r: PasteAction)
        requires
            old(self).stage == PasteStage::RewriteAfterChordFailure,
        ensures
            final(self).stage == PasteStage::Done,
            is_failure(r, PasteFailureStep::KeyInject, PasteFailureKind::Failed, true),
            r matches PasteAction::Done(Err(OutputInjectionError::Paste(f))) && f.message@ == message@,
    {
        self.stage = PasteStage::Done;
        fail(PasteFailureStep::KeyInject, PasteFailureKind::Failed, message, true)
    }

    /// The hold window is over. Without a saved clipboard the transcript is
    /// left in place; otherwise the clipboard is checked before restoring.
    pub fn on_held(&mut self) -> (r: PasteAction)
        requires
            old(self).stage == PasteStage::Hold,
        ensures
            final(self).previous == old(self).previous,
            old(self).previous.is_none() ==> final(self).stage == PasteStage::Done && is_failure(r, PasteFailureStep::ClipboardWrite, PasteFailureKind::Unconfirmed, true),
            old(self).previous.is_some() ==> final(self).stage == PasteStage::Check && r matches PasteAction::CheckClipboard,
    {
        if self.previous.is_none() {
            self.stage = PasteStage::Done;
            return fail(
                PasteFailureStep::ClipboardWrite,
                PasteFailureKind::Unconfirmed,
                String::from_str("Previous clipboard could not be snapshotted; transcript left on clipboard."),
                true,
            );
        }
        self.stage = PasteStage::Check;
        PasteAction::CheckClipboard
    }

    /// Whether the clipboard still equals the transcript after the hold.
    pub fn on_checked(&mut self, still_transcript: bool) -> (r: PasteAction)
        requires
            old(self).stage == PasteStage::Check,
        ensures
            final(self).previous == old(self).previous,
            still_transcript ==> final(self).stage == PasteStage::Restore && r matches PasteAction::RestoreClipboard,
            !still_transcript ==> final(self).stage == PasteStage::Done && is_failure(r, PasteFailureStep::ClipboardWrite, PasteFailureKind::Unconfirmed, false),
    {
        if !still_transcript {
            self.stage = PasteStage::Done;
            return fail(
                PasteFailureStep::ClipboardWrite,
                PasteFailureKind::Unconfirmed,
                String::from_str("Clipboard changed during paste window; not restoring previous clipboard."),
                false,
            );
        }
        self.stage = PasteStage::Restore;
        PasteAction::RestoreClipboard
    }

    /// The saved clipboard was written back, or that failed with `Err(message)`.
    pub fn on_restored(&mut self, restored: Result<(), String>) -> (r: PasteAction)
        requires
            old(self).stage == PasteStage::Restore,
        ensures
            final(self).stage == PasteStage::Done,
            restored.is_ok() ==> r matches PasteAction::Done(Ok(_)),
            restored.is_err() ==> is_failure(r, PasteFailureStep::ClipboardWrite, PasteFailureKind::Unconfirmed, true),
    {
        self.stage = PasteStage::Done;
        match restored {
            Ok(_) => PasteAction::Done(Ok(())),
            Err(m) => {
                let mut message = String::from_str("Failed to restore clipboard: ");
                message.append(m.as_str());
                fail(PasteFailureStep::ClipboardWrite, PasteFailureKind::Unconfirmed, message, true)
            },
        }
    }
}

/// The name of the process-owned virtual keyboard; the hotkey listener skips it.
pub const VIRTUAL_KEYBOARD_NAME: &'static str = "OpenFlow Virtual Keyboard";

/// Linux key codes of the paste chord's keys.
pub const KEY_LEFTCTRL: u16 = 29;
pub const KEY_LEFTSHIFT: u16 = 42;
pub const KEY_V: u16 = 47;

/// The keys of a paste chord, in the order they go down.
pub open spec fn chord_keys(s: PasteShortcut) -> Seq<u16> {
    match s {
        PasteShortcut::CtrlV => seq![KEY_LEFTCTRL, KEY_V],
        PasteShortcut::CtrlShiftV => seq![KEY_LEFTCTRL, KEY_LEFTSHIFT, KEY_V],
    }
}

/// The key events of a paste chord: every key down in order, then every key
/// up in reverse order (value 1 is down, 0 is up).
pub fn paste_chord_events(shortcut: PasteShortcut) -> (r: (Vec<(u16, i32)>, Vec<(u16, i32)>))
    ensures
        r.0@.len() == chord_keys(shortcut).len(),
        r.1@.len() == chord_keys(shortcut).len(),
        forall|i: int| 0 <= i < r.0@.len() ==> #[trigger] r.0@[i] == (chord_keys(shortcut)[i], 1i32),
        forall|i: int| 0 <= i < r.1@.len() ==> #[trigger] r.1@[i] == (chord_keys(shortcut)[chord_keys(shortcut).len() - 1 - i], 0i32),
{
    let mut down: Vec<(u16, i32)> = Vec::new();
    let mut up: Vec<(u16, i32)> = Vec::new();
    down.push((KEY_LEFTCTRL, 1));
    if shortcut == PasteShortcut::CtrlShiftV {
        down.push((KEY_LEFTSHIFT, 1));
    }
    down.push((KEY_V, 1));
    up.push((KEY_V, 0));
    if shortcut == PasteShortcut::CtrlShiftV {
        up.push((KEY_LEFTSHIFT, 0));
    }
    up.push((KEY_LEFTCTRL, 0));
    (down, up)
}

} // verus!
