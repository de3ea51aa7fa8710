//! The bounded sample ring, the speech-trim accountant and the trim window.
use vstd::prelude::*;
use crate::vad::VadDecision;

verus! {

/// Seconds of audio the ring holds at most.
pub const MAX_SECONDS: usize = 120;

/// A length-capped sample sequence that evicts its oldest samples on overflow.
pub struct SampleRing<T> {
    samples: Vec<T>,
    capacity: usize,
    pushed: Ghost<nat>,
    dropped: Ghost<nat>,
}

impl<T: Copy> SampleRing<T> {
    pub closed spec fn view(&self) -> Seq<T> {
        self.samples@
    }

    pub closed spec fn cap(&self) -> nat {
        self.capacity as nat
    }

    /// Samples pushed since the last reset, and samples evicted from the head.
    pub closed spec fn pushed_total(&self) -> nat {
        self.pushed@
    }

    pub closed spec fn dropped_total(&self) -> nat {
        self.dropped@
    }

    /// The ring never holds more than its capacity, and what it holds is what
    /// was pushed minus what was evicted.
    pub closed spec fn wf(&self) -> bool {
        &&& self.samples@.len() <= self.capacity
        &&& self.pushed@ == self.dropped@ + self.samples@.len()
    }

    /// A ring of `MAX_SECONDS × sample_rate` samples.
    pub fn new(sample_rate: u32) -> (r: Self)
        requires
            MAX_SECONDS * sample_rate <= usize::MAX,
        ensures
            r.wf(),
            r@ == Seq::<T>::empty(),
            r.cap() == MAX_SECONDS * sample_rate,
            r.pushed_total() == 0,
            r.dropped_total() == 0,
    {
        SampleRing {
            samples: Vec::new(),
            capacity: MAX_SECONDS * (sample_rate as usize),
            pushed: Ghost(0),
            dropped: Ghost(0),
        }
    }

    pub fn capacity(&self) -> (r: usize)
        ensures
            r == self.cap(),
    {
        self.capacity
    }

    pub fn len(&self) -> (r: usize)
        ensures
            r == self@.len(),
    {
        self.samples.len()
    }

    /// Appends `samples`, then evicts from the head whatever exceeds the
    /// capacity; returns how many samples were evicted.
    pub fn push_samples(&mut self, samples: &[T]) -> (dropped: usize)
        requires
            old(self).wf(),
        ensures
            final(self).wf(),
            final(self).cap() == old(self).cap(),
            dropped == (if old(self)@.len() + samples@.len() > old(self).cap() {
                old(self)@.len() + samples@.len() - old(self).cap()
            } else {
                0
            }),
            final(self)@ == (old(self)@ + samples@).subrange(dropped as int, (old(self)@.len() + samples@.len()) as int),
            final(self).pushed_total() == old(self).pushed_total() + samples@.len(),
            final(self).dropped_total() == old(self).dropped_total() + dropped,
    {
        let ghost start = self.samples@;
        let n = samples.len();
        let mut i: usize = 0;
        while i < n
            invariant
                n == samples@.len(),
                i <= n,
                self.samples@ == start + samples@.subrange(0, i as int),
                self.capacity == old(self).capacity,
                self.pushed == old(self).pushed,
                self.dropped == old(self).dropped,
                start.len() <= self.capacity,
            decreases n - i,
        {
            proof {
                assert(self.samples@.len() == start.len() + i);
            }
            self.samples.push(samples[i]);
            i = i + 1;
            assert(self.samples@ =~= start + samples@.subrange(0, i as int));
        }
        assert(samples@.subrange(0, n as int) =~= samples@);
        let len = self.samples.len();
        let mut overflow: usize = 0;
        if len > self.capacity {
            overflow = len - self.capacity;
            let tail = self.samples.split_off(overflow);
            self.samples = tail;
        }
        self.pushed = Ghost((self.pushed@ + n) as nat);
        self.dropped = Ghost((self.dropped@ + overflow) as nat);
        overflow
    }

    /// Hands out every resident sample and leaves the ring empty.
    pub fn take_samples(&mut self) -> (r: Vec<T>)
        requires
            old(self).wf(),
        ensures
            final(self).wf(),
            r@ == old(self)@,
            final(self)@ == Seq::<T>::empty(),
            final(self).cap() == old(self).cap(),
            final(self).pushed_total() == 0,
            final(self).dropped_total() == 0,
    {
        let out = self.samples.split_off(0);
        self.pushed = Ghost(0);
        self.dropped = Ghost(0);
        out
    }

    /// Discards every resident sample.
    pub fn reset(&mut self)
        requires
            old(self).wf(),
        ensures
            final(self).wf(),
            final(self)@ == Seq::<T>::empty(),
            final(self).cap() == old(self).cap(),
            final(self).pushed_total() == 0,
            final(self).dropped_total() == 0,
    {
        self.samples.clear();
        self.pushed = Ghost(0);
        self.dropped = Ghost(0);
    }
}

/// In every well-formed ring the resident length stays within
/// `MAX_SECONDS × sample_rate`, and equals the samples pushed minus those
/// evicted from the head.
pub proof fn lemma_ring_accounting<T: Copy>(r: &SampleRing<T>)
    requires
        r.wf(),
    ensures
        r@.len() <= r.cap(),
        r.pushed_total() == r.dropped_total() + r@.len(),
{
}

/// The first sample of every interleaved frame of `channels` samples (a
/// trailing partial frame included).
pub open spec fn downmix<T>(data: Seq<T>, channels: nat) -> Seq<T>
    decreases data.len(),
{
    if data.len() == 0 || channels == 0 {
        Seq::<T>::empty()
    } else if data.len() <= channels {
        seq![data[0]]
    } else {
        seq![data[0]] + downmix(data.subrange(channels as int, data.len() as int), channels)
    }
}

/// Groups captured mono samples into frames of 20 ms.
pub struct FrameAssembler<T> {
    pending: Vec<T>,
    frame_len: usize,
}

impl<T: Copy> FrameAssembler<T> {
    pub closed spec fn pending_view(&self) -> Seq<T> {
        self.pending@
    }

    pub closed spec fn frame_size(&self) -> nat {
        self.frame_len as nat
    }

    pub open spec fn wf(&self) -> bool {
        0 < self.frame_size() && self.pending_view().len() < self.frame_size()
    }

    /// Frames of `sample_rate × 20 / 1000` samples.
    pub fn new(sample_rate: u32) -> (r: Self)
        requires
            sample_rate >= 50,
        ensures
            r.wf(),
            r.pending_view() == Seq::<T>::empty(),
            r.frame_size() == (sample_rate as nat * 20) / 1000,
    {
        let frame_len = ((sample_rate as u64 * 20) / 1000) as usize;
        FrameAssembler { pending: Vec::new(), frame_len }
    }

    pub fn frame_len(&self) -> (r: usize)
        ensures
            r == self.frame_size(),
    {
        self.frame_len
    }

    /// Takes an interleaved buffer, keeps the first channel, and returns the
    /// frames completed; what is left waits for the next buffer.
    pub fn push_interleaved(&mut self, data: &[T], channels: usize) -> (frames: Vec<Vec<T>>)
        requires
            old(self).wf(),
            channels > 0,
        ensures
            final(self).wf(),
            final(self).frame_size() == old(self).frame_size(),
            frames@.map_values(|f: Vec<T>| f@).flatten() + final(self).pending_view() == old(self).pending_view() + downmix(data@, channels as nat),
            forall|i: int| 0 <= i < frames@.len() ==> #[trigger] frames@[i]@.len() == old(self).frame_size(),
    {
        let mut frames: Vec<Vec<T>> = Vec::new();
        let mut i: usize = 0;
        let n = data.len();
        let ghost start = self.pending@;
        proof {
            assert(data@.subrange(0, n as int) =~= data@);
            assert(frames@.map_values(|f: Vec<T>| f@) =~= Seq::<Seq<T>>::empty());
        }
        while i < n
            invariant
                n == data@.len(),
                channels > 0,
                0 < self.frame_len,
                self.pending@.len() < self.frame_len,
                self.frame_len == old(self).frame_len,
                start == old(self).pending@,
                frames@.map_values(|f: Vec<T>| f@).flatten() + self.pending@ + downmix(data@.subrange(i as int, n as int), channels as nat)
                    == start + downmix(data@, channels as nat),
                forall|k: int| 0 <= k < frames@.len() ==> #[trigger] frames@[k]@.len() == self.frame_len,
                i <= n,
            decreases n - i,
        {
            let ghost rest = data@.subrange(i as int, n as int);
            let sample = data[i];
            let next: usize = if n - i > channels { i + channels } else { n };
            proof {
                if rest.len() <= channels {
                    assert(downmix(rest, channels as nat) == seq![rest[0]]);
                    assert(data@.subrange(next as int, n as int) =~= Seq::<T>::empty());
                } else {
                    assert(rest.subrange(channels as int, rest.len() as int) =~= data@.subrange(next as int, n as int));
                }
                assert(downmix(rest, channels as nat) =~= seq![sample] + downmix(data@.subrange(next as int, n as int), channels as nat));
            }
            let ghost before_frames = frames@.map_values(|f: Vec<T>| f@);
            let ghost before_pending = self.pending@;
            self.pending.push(sample);
            if self.pending.len() >= self.frame_len {
                let frame = self.pending.split_off(0);
                let ghost fv = frame@;
                frames.push(frame);
                proof {
                    assert(frames@.map_values(|f: Vec<T>| f@) =~= before_frames.push(fv));
                    before_frames.lemma_flatten_push(fv);
                }
            }
            proof {
                assert(frames@.map_values(|f: Vec<T>| f@).flatten() + self.pending@ =~= before_frames.flatten() + before_pending.push(sample)) by {
                    if frames@.len() > before_frames.len() {
                        before_frames.lemma_flatten_push(before_pending.push(sample));
                    }
                }
            }
            i = next;
        }
        frames
    }
}

/// Why a finished session produced no transcript.
#[derive(Clone, Copy, Debug, PartialEq, Eq, Structural)]
pub enum SkipReason {
    NoAudio,
    NoSpeech,
    TrimRejected,
    EmptyTranscript,
    CleanEmpty,
}

impl SkipReason {
    /// The event code of the reason.
    pub fn code(&self) -> (r: &'static str)
        ensures
            r@ == skip_code(*self)@,
    {
        match self {
            SkipReason::NoAudio => "no-audio",
            SkipReason::NoSpeech => "no-speech",
            SkipReason::TrimRejected => "trim-rejected",
            SkipReason::EmptyTranscript => "empty-transcript",
            SkipReason::CleanEmpty => "clean-empty",
        }
    }

    /// A sentence for the user.
    pub fn message(&self) -> (r: &'static str)
        ensures
            r@ == skip_message(*self)@,
    {
        match self {
            SkipReason::NoAudio => "No audio captured; skipping ASR",
            SkipReason::NoSpeech => "No speech detected; skipping ASR",
            SkipReason::TrimRejected => "Speech trim rejected; skipping ASR",
            SkipReason::EmptyTranscript => "ASR returned empty transcript",
            SkipReason::CleanEmpty => "Cleanup removed all transcript text",
        }
    }
}

pub open spec fn skip_code(r: SkipReason) -> &'static str {
    match r {
        SkipReason::NoAudio => "no-audio",
        SkipReason::NoSpeech => "no-speech",
        SkipReason::TrimRejected => "trim-rejected",
        SkipReason::EmptyTranscript => "empty-transcript",
        SkipReason::CleanEmpty => "clean-empty",
    }
}

pub open spec fn skip_message(r: SkipReason) -> &'static str {
    match r {
        SkipReason::NoAudio => "No audio captured; skipping ASR",
        SkipReason::NoSpeech => "No speech detected; skipping ASR",
        SkipReason::TrimRejected => "Speech trim rejected; skipping ASR",
        SkipReason::EmptyTranscript => "ASR returned empty transcript",
        SkipReason::CleanEmpty => "Cleanup removed all transcript text",
    }
}

/// Per-session speech accounting in absolute sample offsets.
#[derive(Clone, Copy, Debug, PartialEq, Eq, Structural)]
pub struct VadTrimState {
    pub total_samples: usize,
    pub buffer_start: usize,
    pub first_active: Option<usize>,
    pub last_active: Option<usize>,
    pub active_samples: usize,
}

pub open spec fn sat_add(a: usize, b: usize) -> usize {
    if a + b > usize::MAX { usize::MAX } else { (a + b) as usize }
}

impl VadTrimState {
    /// Speech offsets are ordered and the active count stays within the total.
    pub open spec fn wf(&self) -> bool {
        &&& self.first_active.is_some() ==> (self.last_active.is_some() && self.last_active.unwrap()
            >= self.first_active.unwrap())
        &&& self.last_active.is_some() ==> self.last_active.unwrap() <= self.total_samples
        &&& self.first_active.is_none() ==> self.active_samples == 0
        &&& self.active_samples <= self.total_samples
    }

    pub open spec fn fresh() -> VadTrimState {
        VadTrimState { total_samples: 0, buffer_start: 0, first_active: None, last_active: None, active_samples: 0 }
    }

    pub open spec fn recorded(self, d: VadDecision, n: usize) -> VadTrimState {
        let start = self.total_samples;
        let end = sat_add(start, n);
        if d == VadDecision::Active {
            VadTrimState {
                total_samples: end,
                first_active: if self.first_active.is_none() { Some(start) } else { self.first_active },
                last_active: Some(end),
                active_samples: sat_add(self.active_samples, n),
                ..self
            }
        } else {
            VadTrimState { total_samples: end, ..self }
        }
    }

    pub fn new() -> (r: VadTrimState)
        ensures
            r == VadTrimState::fresh(),
            r.wf(),
    {
        VadTrimState { total_samples: 0, buffer_start: 0, first_active: None, last_active: None, active_samples: 0 }
    }

    pub fn reset(&mut self)
        ensures
            *final(self) == VadTrimState::fresh(),
    {
        *self = VadTrimState::new();
    }

    /// Accounts for one frame of `frame_samples` samples and its VAD verdict.
    pub fn record(&mut self, decision: VadDecision, frame_samples: usize)
        ensures
            *final(self) == old(self).recorded(decision, frame_samples),
    {
        let start = self.total_samples;
        let end = start.saturating_add(frame_samples);
        if decision == VadDecision::Active {
            if self.first_active.is_none() {
                self.first_active = Some(start);
            }
            self.last_active = Some(end);
            self.active_samples = self.active_samples.saturating_add(frame_samples);
        }
        self.total_samples = end;
    }

    /// Shifts the origin of the ring after `dropped` samples were evicted.
    pub fn note_buffer_drop(&mut self, dropped: usize)
        ensures
            *final(self) == (VadTrimState { buffer_start: sat_add(old(self).buffer_start, dropped), ..*old(self) }),
    {
        if dropped == 0 {
            return;
        }
        self.buffer_start = self.buffer_start.saturating_add(dropped);
    }
}

/// Recording frames keeps the speech offsets ordered and the active count
/// within the total; with frames of one size `f`, and while no counter
/// saturates, both counts stay multiples of `f`.
pub proof fn lemma_trim_record_invariant(t: VadTrimState, d: VadDecision, f: usize)
    requires
        t.wf(),
    ensures
        t.recorded(d, f).wf(),
        t.total_samples + f <= usize::MAX ==> t.recorded(d, f).active_samples == t.active_samples + (if d == VadDecision::Active { f as int } else { 0 })
            && t.recorded(d, f).total_samples == t.total_samples + f,
        ((t.total_samples as int) % (f as int) == 0 && (t.active_samples as int) % (f as int) == 0 && f > 0
            && t.total_samples + f <= usize::MAX) ==> ((t.recorded(d, f).total_samples as int) % (f as int) == 0
            && (t.recorded(d, f).active_samples as int) % (f as int) == 0),
{
    if f > 0 && (t.total_samples as int) % (f as int) == 0 && (t.active_samples as int) % (f as int) == 0 && t.total_samples + f <= usize::MAX {
        assert((t.total_samples + f) % (f as int) == 0) by (nonlinear_arith)
            requires (t.total_samples as int) % (f as int) == 0, f > 0;
        assert((t.active_samples + f) % (f as int) == 0) by (nonlinear_arith)
            requires (t.active_samples as int) % (f as int) == 0, f > 0;
    }
}

/// Milliseconds of speech needed before a session is transcribed.
pub const VAD_MIN_SPEECH_MS: u64 = 350;
/// Audio kept before the first speech.
pub const VAD_PRE_ROLL_MS: u64 = 200;
/// Audio kept after the last speech.
pub const VAD_POST_ROLL_MS: u64 = 500;
/// Trailing silence up to which the whole tail is kept.
pub const VAD_MAX_TRAILING_SILENCE_MS: u64 = 600;

/// Samples in `ms` milliseconds at `rate` Hz.
pub open spec fn ms_samples(ms: u64, rate: u32) -> usize {
    ((ms * rate) / 1000) as usize
}

pub open spec fn sat_sub(a: usize, b: usize) -> usize {
    if a >= b { (a - b) as usize } else { 0 }
}

/// The window of the ring (relative offsets) handed to the recognizer.
pub open spec fn trim_range(t: VadTrimState, rate: u32, buffer_len: usize) -> Result<(usize, usize), SkipReason> {
    if buffer_len == 0 {
        Err(SkipReason::NoAudio)
    } else if t.first_active.is_none() || t.active_samples < ms_samples(VAD_MIN_SPEECH_MS, rate) {
        Err(SkipReason::NoSpeech)
    } else {
        let first = t.first_active.unwrap();
        let last = if t.last_active.is_some() { t.last_active.unwrap() } else { first };
        let start_abs = sat_sub(first, ms_samples(VAD_PRE_ROLL_MS, rate));
        let buffer_end = sat_add(t.buffer_start, buffer_len);
        let end_abs = if sat_sub(buffer_end, last) <= ms_samples(VAD_MAX_TRAILING_SILENCE_MS, rate) {
            buffer_end
        } else {
            sat_add(last, ms_samples(VAD_POST_ROLL_MS, rate))
        };
        let start = if start_abs >= t.buffer_start { start_abs } else { t.buffer_start };
        let end = if end_abs <= buffer_end { end_abs } else { buffer_end };
        if end <= start {
            Err(SkipReason::TrimRejected)
        } else {
            Ok(((start - t.buffer_start) as usize, (end - t.buffer_start) as usize))
        }
    }
}

fn ms_to_samples(ms: u64, rate: u32) -> (r: usize)
    requires
        ms <= 1000,
    ensures
        r == ms_samples(ms, rate),
{
    assert(ms * rate <= 1000 * 0xffff_ffffu64) by (nonlinear_arith)
        requires ms <= 1000, rate <= 0xffff_ffffu32;
    ((ms * rate as u64) / 1000) as usize
}

impl VadTrimState {
    /// Computes the trim window over a ring snapshot of `buffer_len` samples,
    /// or the reason why nothing is transcribed.
    pub fn compute_trim_range(&self, sample_rate: u32, buffer_len: usize) -> (r: Result<(usize, usize), SkipReason>)
        ensures
            r == trim_range(*self, sample_rate, buffer_len),
            r.is_ok() ==> r.unwrap().0 < r.unwrap().1 <= buffer_len,
    {
        if buffer_len == 0 {
            return Err(SkipReason::NoAudio);
        }
        let min_samples = ms_to_samples(VAD_MIN_SPEECH_MS, sample_rate);
        if self.first_active.is_none() || self.active_samples < min_samples {
            return Err(SkipReason::NoSpeech);
        }
        let first = self.first_active.unwrap();
        let last = match self.last_active {
            Some(l) => l,
            None => first,
        };
        let pre_roll = ms_to_samples(VAD_PRE_ROLL_MS, sample_rate);
        let post_roll = ms_to_samples(VAD_POST_ROLL_MS, sample_rate);
        let keep_tail = ms_to_samples(VAD_MAX_TRAILING_SILENCE_MS, sample_rate);
        let start_abs = first.saturating_sub(pre_roll);
        let mut end_abs = last.saturating_add(post_roll);
        let buffer_start = self.buffer_start;
        let buffer_end = buffer_start.saturating_add(buffer_len);
        let trailing_silence = buffer_end.saturating_sub(last);
        if trailing_silence <= keep_tail {
            end_abs = buffer_end;
        }
        let start = if start_abs >= buffer_start { start_abs } else { buffer_start };
        let end = if end_abs <= buffer_end { end_abs } else { buffer_end };
        if end <= start {
            return Err(SkipReason::TrimRejected);
        }
        Ok((start - buffer_start, end - buffer_start))
    }
}

/// Sessions with no audio, no speech, or less speech than the minimum are
/// skipped with `no-audio` or `no-speech` and never reach the recognizer.
pub proof fn lemma_silence_is_skipped(t: VadTrimState, rate: u32, buffer_len: usize)
    requires
        buffer_len == 0 || t.first_active.is_none() || t.active_samples < ms_samples(VAD_MIN_SPEECH_MS, rate),
    ensures
        trim_range(t, rate, buffer_len) == Err::<(usize, usize), SkipReason>(SkipReason::NoAudio)
            || trim_range(t, rate, buffer_len) == Err::<(usize, usize), SkipReason>(SkipReason::NoSpeech),
{
}

} // verus!
