//! Recognizer configuration, the engine's ring and the checks made before a
//! recognizer runs.
use vstd::prelude::*;
use crate::audio::SampleRing;
use crate::text::{str_eq, trim_str, trimmed};

verus! {

/// The recognizer family and backend.
#[derive(Clone, Copy, Debug, PartialEq, Eq, Structural)]
pub enum AsrBackend {
    WhisperOnnx,
    WhisperCt2,
    Parakeet,
}

impl AsrBackend {
    pub fn default_backend() -> (r: AsrBackend)
        ensures
            r == AsrBackend::Parakeet,
    {
        AsrBackend::Parakeet
    }
}

/// How a recognizer is built and run.
#[derive(Clone, Debug)]
pub struct AsrConfig {
    pub backend: AsrBackend,
    pub language: String,
    pub auto_language_detect: bool,
    pub model_dir: Option<String>,
    pub provider: String,
    pub num_threads: Option<i32>,
    pub ct2_device: String,
    pub ct2_compute_type: String,
}

impl AsrConfig {
    /// Parakeet on the CPU, auto-detected language, no model directory yet.
    pub fn default_config() -> (r: AsrConfig)
        ensures
            r.backend == AsrBackend::Parakeet,
            r.language@ == "auto"@,
            r.auto_language_detect,
            r.model_dir.is_none(),
            r.provider@ == "cpu"@,
            r.num_threads.is_none(),
            r.ct2_device@ == "cpu"@,
            r.ct2_compute_type@ == "int8"@,
    {
        AsrConfig {
            backend: AsrBackend::Parakeet,
            language: String::from_str("auto"),
            auto_language_detect: true,
            model_dir: None,
            provider: String::from_str("cpu"),
            num_threads: None,
            ct2_device: String::from_str("cpu"),
            ct2_compute_type: String::from_str("int8"),
        }
    }
}

/// A recognized transcript and how long recognition took.
#[derive(Clone, Debug)]
pub struct RecognitionResult {
    pub text: String,
    pub latency_ms: u64,
}

/// Why a recognizer could not run or failed.
#[derive(Clone, Debug)]
pub enum AsrError {
    ModelNotInstalled,
    SampleRateUnsupported(u32),
    RecognizerUnavailable,
    RecognizerRuntime(String),
}

/// The only rate the recognizers accept.
pub const ASR_SAMPLE_RATE: u32 = 16_000;

/// The language to ask the recognizer for: `None` lets it detect the language.
pub open spec fn language_choice(auto_detect: bool, language: Seq<char>) -> Option<Seq<char>> {
    if auto_detect || trimmed(language).len() == 0 || language == "auto"@ {
        None
    } else {
        Some(language)
    }
}

/// What a recognizer run is given besides the samples.
#[derive(Clone, Debug)]
pub struct RecognizerRequest {
    pub backend: AsrBackend,
    pub model_dir: String,
    pub language: Option<String>,
}

/// Holds the configuration and the sample ring of the current session.
pub struct AsrEngine<T> {
    config: AsrConfig,
    ring: SampleRing<T>,
}

impl<T: Copy> AsrEngine<T> {
    pub closed spec fn ring(&self) -> SampleRing<T> {
        self.ring
    }

    pub closed spec fn cfg(&self) -> AsrConfig {
        self.config
    }

    pub open spec fn wf(&self) -> bool {
        self.ring().wf()
    }

    /// An engine for `config` whose ring holds `MAX_SECONDS` of 16 kHz audio.
    pub fn new(config: AsrConfig) -> (r: Self)
        ensures
            r.wf(),
            r.ring()@ == Seq::<T>::empty(),
            r.ring().cap() == 120 * 16_000,
            r.cfg() == config,
    {
        AsrEngine { config, ring: SampleRing::new(ASR_SAMPLE_RATE) }
    }

    pub fn config(&self) -> (r: &AsrConfig)
        ensures
            *r == self.cfg(),
    {
        &self.config
    }

    /// Appends samples; returns how many of the oldest were evicted.
    pub fn push_samples(&mut self, samples: &[T]) -> (dropped: usize)
        requires
            old(self).wf(),
        ensures
            final(self).wf(),
            final(self).cfg() == old(self).cfg(),
            final(self).ring().cap() == old(self).ring().cap(),
            dropped == (if old(self).ring()@.len() + samples@.len() > old(self).ring().cap() {
                old(self).ring()@.len() + samples@.len() - old(self).ring().cap()
            } else {
                0
            }),
            final(self).ring()@ == (old(self).ring()@ + samples@).subrange(
                dropped as int,
                (old(self).ring()@.len() + samples@.len()) as int,
            ),
    {
        self.ring.push_samples(samples)
    }

    /// Extracts and clears the buffered samples.
    pub fn take_samples(&mut self) -> (r: Vec<T>)
        requires
            old(self).wf(),
        ensures
            final(self).wf(),
            final(self).cfg() == old(self).cfg(),
            r@ == old(self).ring()@,
            final(self).ring()@ == Seq::<T>::empty(),
            final(self).ring().cap() == old(self).ring().cap(),
    {
        self.ring.take_samples()
    }

    pub fn reset(&mut self)
        requires
            old(self).wf(),
        ensures
            final(self).wf(),
            final(self).cfg() == old(self).cfg(),
            final(self).ring()@ == Seq::<T>::empty(),
            final(self).ring().cap() == old(self).ring().cap(),
    {
        self.ring.reset()
    }

    /// Decides whether `sample_count` samples at `sample_rate` may be handed
    /// to the recognizer: nothing to do on no samples, an error on any rate
    /// but 16 kHz or without an installed model, else the request to run.
    pub fn prepare_finalize(&self, sample_rate: u32, sample_count: usize) -> (r: Result<Option<RecognizerRequest>, AsrError>)
        ensures
            sample_count == 0 ==> r matches Ok(None),
            sample_count > 0 && sample_rate != ASR_SAMPLE_RATE ==> (r matches Err(AsrError::SampleRateUnsupported(x)) && x == sample_rate),
            sample_count > 0 && sample_rate == ASR_SAMPLE_RATE && self.cfg().model_dir.is_none() ==> r matches Err(AsrError::ModelNotInstalled),
            sample_count > 0 && sample_rate == ASR_SAMPLE_RATE && self.cfg().model_dir.is_some() ==> (r matches Ok(Some(q))
                && q.backend == self.cfg().backend && q.model_dir@ == self.cfg().model_dir.unwrap()@
                && (q.language.is_some() == language_choice(self.cfg().auto_language_detect, self.cfg().language@).is_some())
                && (q.language.is_some() ==> q.language.unwrap()@ == language_choice(self.cfg().auto_language_detect, self.cfg().language@).unwrap())),
    {
        if sample_count == 0 {
            return Ok(None);
        }
        if sample_rate != ASR_SAMPLE_RATE {
            return Err(AsrError::SampleRateUnsupported(sample_rate));
        }
        match &self.config.model_dir {
            None => Err(AsrError::ModelNotInstalled),
            Some(dir) => {
                let language = recognizer_language(&self.config);
                Ok(Some(RecognizerRequest { backend: self.config.backend, model_dir: dir.clone(), language }))
            },
        }
    }
}

/// The language passed to the recognizer; `None` asks it to detect one.
pub fn recognizer_language(config: &AsrConfig) -> (r: Option<String>)
    ensures
        r.is_some() == language_choice(config.auto_language_detect, config.language@).is_some(),
        r.is_some() ==> r.unwrap()@ == language_choice(config.auto_language_detect, config.language@).unwrap(),
{
    if config.auto_language_detect {
        return None;
    }
    let lang = config.language.as_str();
    if trim_str(lang).unicode_len() == 0 || str_eq(lang, "auto") {
        return None;
    }
    Some(config.language.clone())
}

} // verus!
