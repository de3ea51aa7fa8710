//! Recognizer warm-up with a fall back to the last known good selection.
use vstd::prelude::*;
use crate::session::AsrWarmupState;
use crate::settings::{default_asr_selection, AsrSelection, PersistedSettings};
use crate::text::str_eq;

verus! {

/// Two selections name the same recognizer.
pub open spec fn same_selection(a: AsrSelection, b: AsrSelection) -> bool {
    &&& a.asr_family@ == b.asr_family@
    &&& a.whisper_backend@ == b.whisper_backend@
    &&& a.whisper_model@ == b.whisper_model@
    &&& a.whisper_model_language@ == b.whisper_model_language@
    &&& a.whisper_precision@ == b.whisper_precision@
}

pub fn selections_equal(a: &AsrSelection, b: &AsrSelection) -> (r: bool)
    ensures
        r == same_selection(*a, *b),
{
    str_eq(a.asr_family.as_str(), b.asr_family.as_str()) && str_eq(a.whisper_backend.as_str(), b.whisper_backend.as_str())
        && str_eq(a.whisper_model.as_str(), b.whisper_model.as_str())
        && str_eq(a.whisper_model_language.as_str(), b.whisper_model_language.as_str())
        && str_eq(a.whisper_precision.as_str(), b.whisper_precision.as_str())
}

/// `o` holds a selection naming the same recognizer as `s`.
pub open spec fn holds_selection(o: Option<AsrSelection>, s: AsrSelection) -> bool {
    o matches Some(x) && same_selection(x, s)
}

/// Warm-up bookkeeping: each run carries a generation, and only the latest
/// run may set the state; the selection warmed last and the one being
/// warmed are kept so that a repeated request is skipped.
#[derive(Debug)]
pub struct WarmupTracker {
    pub state: AsrWarmupState,
    pub generation: u64,
    pub warmed: Option<AsrSelection>,
    pub target: Option<AsrSelection>,
    pub last_error: Option<String>,
}

impl WarmupTracker {
    pub fn new() -> (r: WarmupTracker)
        ensures
            r.state == AsrWarmupState::Warming,
            r.generation == 0,
            r.warmed.is_none() && r.target.is_none() && r.last_error.is_none(),
    {
        WarmupTracker { state: AsrWarmupState::Warming, generation: 0, warmed: None, target: None, last_error: None }
    }

    /// Asks for `selection` to be warmed. Nothing starts when it is already
    /// warm or already being warmed; otherwise a new run starts and its
    /// generation is returned.
    pub fn request(&mut self, selection: AsrSelection) -> (r: Option<u64>)
        requires
            old(self).generation < u64::MAX,
        ensures
            ({
                let skip = (old(self).state == AsrWarmupState::Ready && holds_selection(old(self).warmed, selection))
                    || (old(self).state == AsrWarmupState::Warming && holds_selection(old(self).target, selection));
                &&& skip ==> r is None && *final(self) == *old(self)
                &&& !skip ==> r == Some((old(self).generation + 1) as u64) && final(self).generation == old(self).generation + 1
                    && final(self).state == AsrWarmupState::Warming && final(self).target == Some(selection)
                    && final(self).warmed == old(self).warmed && final(self).last_error.is_none()
            }),
    {
        let warm_same = match &self.warmed {
            Some(w) => selections_equal(w, &selection),
            None => false,
        };
        let target_same = match &self.target {
            Some(t) => selections_equal(t, &selection),
            None => false,
        };
        if (self.state == AsrWarmupState::Ready && warm_same) || (self.state == AsrWarmupState::Warming && target_same) {
            return None;
        }
        self.generation = self.generation + 1;
        self.state = AsrWarmupState::Warming;
        self.target = Some(selection);
        self.last_error = None;
        Some(self.generation)
    }

    /// Warm-up is switched off: the selection counts as warm.
    pub fn mark_ready_without_warmup(&mut self, selection: AsrSelection)
        ensures
            final(self).state == AsrWarmupState::Ready,
            final(self).generation == old(self).generation,
            holds_selection(final(self).warmed, selection),
            holds_selection(final(self).target, selection),
            final(self).last_error.is_none(),
    {
        let copy = selection.duplicate();
        self.state = AsrWarmupState::Ready;
        self.warmed = Some(selection);
        self.target = Some(copy);
        self.last_error = None;
    }

    /// Run `g` moved on to the fallback `selection`; a stale run changes nothing.
    pub fn retarget(&mut self, g: u64, selection: AsrSelection) -> (applied: bool)
        ensures
            applied == (g == old(self).generation),
            applied ==> final(self).target == Some(selection) && final(self).state == old(self).state
                && final(self).generation == old(self).generation && final(self).warmed == old(self).warmed,
            !applied ==> *final(self) == *old(self),
    {
        if g != self.generation {
            return false;
        }
        self.target = Some(selection);
        true
    }

    /// Records the outcome of run `g`. A stale run changes nothing. A
    /// success makes the state `Ready`, records the selection as warmed, as
    /// target and as last known good in `store`; a failure makes it `Error`.
    pub fn finish(&mut self, g: u64, result: Result<AsrSelection, String>, store: &mut PersistedSettings) -> (applied: bool)
        ensures
            applied == (g == old(self).generation),
            final(self).generation == old(self).generation,
            !applied ==> *final(self) == *old(self) && *final(store) == *old(store),
            applied ==> match result {
                Ok(sel) => final(self).state == AsrWarmupState::Ready && holds_selection(final(self).warmed, sel)
                    && holds_selection(final(self).target, sel) && final(self).last_error.is_none()
                    && holds_selection(final(store).last_known_good_asr, sel)
                    && final(store).frontend == old(store).frontend
                    && final(store).debug_transcripts_until == old(store).debug_transcripts_until,
                Err(e) => final(self).state == AsrWarmupState::Error && final(self).last_error == Some(e)
                    && final(self).warmed == old(self).warmed && *final(store) == *old(store),
            },
    {
        if g != self.generation {
            return false;
        }
        match result {
            Ok(sel) => {
                let target = sel.duplicate();
                let known_good = sel.duplicate();
                self.state = AsrWarmupState::Ready;
                self.warmed = Some(sel);
                self.target = Some(target);
                self.last_error = None;
                store.last_known_good_asr = Some(known_good);
            },
            Err(e) => {
                self.state = AsrWarmupState::Error;
                self.last_error = Some(e);
            },
        }
        true
    }
}

/// The selection to fall back to: the last known good one, else the default.
pub fn fallback_selection(last_known_good: Option<AsrSelection>) -> (r: AsrSelection)
    ensures
        last_known_good.is_some() ==> r == last_known_good.unwrap(),
        last_known_good.is_none() ==> r.asr_family@ == "parakeet"@ && r.whisper_backend@ == "ct2"@ && r.whisper_model@ == "small"@
            && r.whisper_model_language@ == "multi"@ && r.whisper_precision@ == "int8"@,
{
    match last_known_good {
        Some(s) => s,
        None => default_asr_selection(),
    }
}

/// Where a warm-up run stands.
#[derive(Clone, Copy, Debug, PartialEq, Eq, Structural)]
pub enum WarmupStage {
    /// Warming the selection from the settings.
    Selected,
    /// Warming the fallback selection after the first attempt failed.
    Fallback,
    Done,
}

/// What the caller is to do next.
#[derive(Clone, Copy, Debug, PartialEq, Eq, Structural)]
pub enum WarmupStep {
    /// Make sure the selected model is installed, then build its recognizer.
    WarmSelected,
    /// Write the fallback selection into the settings, reload, and warm it.
    WarmFallback,
    /// The run is over with this state; on `Ready` the warmed selection is
    /// recorded as last known good.
    Finish(AsrWarmupState),
}

/// Longest wait for a queued model install before warm-up gives up.
pub const MODEL_WAIT_LIMIT_MS: u64 = 10_000;

/// Whether waiting for the model should stop with an error.
pub fn model_wait_expired(waited_ms: u64) -> (r: bool)
    ensures
        r == (waited_ms >= MODEL_WAIT_LIMIT_MS),
{
    waited_ms >= MODEL_WAIT_LIMIT_MS
}

/// One warm-up run.
#[derive(Clone, Copy, Debug, PartialEq, Eq, Structural)]
pub struct WarmupFlow {
    pub stage: WarmupStage,
}

impl WarmupFlow {
    pub fn start() -> (r: (WarmupFlow, WarmupStep))
        ensures
            r.0.stage == WarmupStage::Selected,
            r.1 == WarmupStep::WarmSelected,
    {
        (WarmupFlow { stage: WarmupStage::Selected }, WarmupStep::WarmSelected)
    }

    /// A recognizer build finished. After a failure of the selected
    /// recognizer the fallback is tried, unless it is the same selection.
    pub fn on_warmed(&mut self, ok: bool, fallback_is_current: bool) -> (r: WarmupStep)
        requires
            old(self).stage != WarmupStage::Done,
        ensures
            ok ==> r == WarmupStep::Finish(AsrWarmupState::Ready) && final(self).stage == WarmupStage::Done,
            !ok && old(self).stage == WarmupStage::Selected && !fallback_is_current ==> r == WarmupStep::WarmFallback
                && final(self).stage == WarmupStage::Fallback,
            !ok && (old(self).stage == WarmupStage::Fallback || fallback_is_current) ==> r == WarmupStep::Finish(AsrWarmupState::Error)
                && final(self).stage == WarmupStage::Done,
    {
        if ok {
            self.stage = WarmupStage::Done;
            return WarmupStep::Finish(AsrWarmupState::Ready);
        }
        if self.stage == WarmupStage::Selected && !fallback_is_current {
            self.stage = WarmupStage::Fallback;
            return WarmupStep::WarmFallback;
        }
        self.stage = WarmupStage::Done;
        WarmupStep::Finish(AsrWarmupState::Error)
    }
}

} // verus!
