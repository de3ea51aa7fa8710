//! The speech pipeline's per-session state: frames in while listening, and
//! the finalize step that chooses what a finished session produces.
use vstd::prelude::*;
use crate::asr::{AsrConfig, AsrEngine, AsrError, RecognizerRequest};
use crate::audio::{trim_range, SkipReason, VadTrimState};
use crate::vad::{hangover_step, Hangover};

verus! {

/// What a finished session produces.
#[derive(Debug)]
pub enum FinalizeOutcome<T> {
    /// Nothing was being recorded.
    Idle,
    /// Nothing is transcribed, for this reason.
    Skipped(SkipReason),
    /// The recognizer cannot run.
    Failed(AsrError),
    /// Run the recognizer on these trimmed samples.
    Transcribe(RecognizerRequest, Vec<T>),
}

/// Listening flag, recognizer ring, trim accounting and VAD hangover.
pub struct SpeechState<T> {
    pub listening: bool,
    pub engine: AsrEngine<T>,
    pub trim: VadTrimState,
    pub hangover: Hangover,
}

impl<T: Copy> SpeechState<T> {
    pub open spec fn wf(&self) -> bool {
        self.engine.wf()
    }

    /// Everything cleared for the next session.
    pub open spec fn cleared(&self) -> bool {
        &&& self.engine.ring()@ == Seq::<T>::empty()
        &&& self.trim == VadTrimState::fresh()
        &&& self.hangover.last_speech_ms.is_none()
    }

    pub fn new(config: AsrConfig, hangover_ms: u64) -> (r: Self)
        ensures
            r.wf(),
            r.cleared(),
            !r.listening,
            r.hangover.hangover_ms == hangover_ms,
    {
        SpeechState { listening: false, engine: AsrEngine::new(config), trim: VadTrimState::new(), hangover: Hangover::new(hangover_ms) }
    }

    /// One captured frame: ignored unless listening; otherwise smoothed by
    /// the hangover, accounted for in the trim state and appended to the
    /// ring, whose evictions shift the trim origin.
    pub fn process_frame(&mut self, frame: &[T], speech: bool, now_ms: u64)
        requires
            old(self).wf(),
        ensures
            final(self).wf(),
            final(self).listening == old(self).listening,
            final(self).engine.cfg() == old(self).engine.cfg(),
            !old(self).listening ==> final(self).engine.ring()@ == old(self).engine.ring()@ && final(self).trim == old(self).trim
                && final(self).hangover == old(self).hangover,
            old(self).listening ==> {
                let (h, d) = hangover_step(old(self).hangover, speech, now_ms);
                let n = old(self).engine.ring()@.len() + frame@.len();
                let cap = old(self).engine.ring().cap();
                let dropped = if n > cap { n - cap } else { 0 };
                &&& final(self).hangover == h
                &&& final(self).engine.ring()@ == (old(self).engine.ring()@ + frame@).subrange(dropped as int, n as int)
                &&& final(self).trim == (VadTrimState {
                    buffer_start: if dropped == 0 { old(self).trim.recorded(d, frame@.len() as usize).buffer_start } else {
                        crate::audio::sat_add(old(self).trim.recorded(d, frame@.len() as usize).buffer_start, dropped as usize)
                    },
                    ..old(self).trim.recorded(d, frame@.len() as usize)
                })
            },
    {
        if !self.listening {
            return;
        }
        let decision = self.hangover.apply(speech, now_ms);
        self.trim.record(decision, frame.len());
        let dropped = self.engine.push_samples(frame);
        self.trim.note_buffer_drop(dropped);
    }

    /// Starts or stops listening. Starting, or stopping when nothing was
    /// recorded, clears the session. Stopping a session takes the ring,
    /// computes the trim window and asks the engine whether the recognizer
    /// may run; the session is cleared either way.
    pub fn set_listening(&mut self, active: bool, sample_rate: u32) -> (r: FinalizeOutcome<T>)
        requires
            old(self).wf(),
        ensures
            final(self).wf(),
            final(self).cleared(),
            final(self).listening == active,
            final(self).engine.cfg() == old(self).engine.cfg(),
            final(self).hangover.hangover_ms == old(self).hangover.hangover_ms,
            (active || !old(self).listening) ==> r is Idle,
            (!active && old(self).listening) ==> {
                let samples = old(self).engine.ring()@;
                match trim_range(old(self).trim, sample_rate, samples.len() as usize) {
                    Err(reason) => r == FinalizeOutcome::<T>::Skipped(reason),
                    Ok((s, e)) => {
                        &&& sample_rate != crate::asr::ASR_SAMPLE_RATE ==> (r matches FinalizeOutcome::Failed(AsrError::SampleRateUnsupported(x)) && x == sample_rate)
                        &&& (sample_rate == crate::asr::ASR_SAMPLE_RATE && old(self).engine.cfg().model_dir.is_none()) ==> (r matches FinalizeOutcome::Failed(AsrError::ModelNotInstalled))
                        &&& (sample_rate == crate::asr::ASR_SAMPLE_RATE && old(self).engine.cfg().model_dir.is_some()) ==> (r matches FinalizeOutcome::Transcribe(q, v)
                            && v@ == samples.subrange(s as int, e as int) && q.backend == old(self).engine.cfg().backend
                            && q.model_dir@ == old(self).engine.cfg().model_dir.unwrap()@)
                    },
                }
            },
    {
        let was = self.listening;
        self.listening = active;
        if active || !was {
            self.engine.reset();
            self.hangover.reset();
            self.trim.reset();
            return FinalizeOutcome::Idle;
        }
        let samples = self.engine.take_samples();
        let outcome = match self.trim.compute_trim_range(sample_rate, samples.len()) {
            Err(reason) => FinalizeOutcome::Skipped(reason),
            Ok((s, e)) => match self.engine.prepare_finalize(sample_rate, e - s) {
                Ok(None) => FinalizeOutcome::Skipped(SkipReason::NoSpeech),
                Err(err) => FinalizeOutcome::Failed(err),
                Ok(Some(req)) => FinalizeOutcome::Transcribe(req, copy_range(&samples, s, e)),
            },
        };
        self.engine.reset();
        self.hangover.reset();
        self.trim.reset();
        outcome
    }
}

fn copy_range<T: Copy>(v: &Vec<T>, from: usize, to: usize) -> (r: Vec<T>)
    requires
        from <= to <= v@.len(),
    ensures
        r@ == v@.subrange(from as int, to as int),
{
    let mut out: Vec<T> = Vec::new();
    let mut i: usize = from;
    while i < to
        invariant
            from <= i <= to <= v@.len(),
            out@ == v@.subrange(from as int, i as int),
        decreases to - i,
    {
        out.push(v[i]);
        i = i + 1;
        assert(out@ =~= v@.subrange(from as int, i as int));
    }
    out
}

} // verus!
