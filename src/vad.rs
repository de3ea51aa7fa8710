//! Voice-activity configuration, sensitivity thresholds and hangover smoothing.
use vstd::prelude::*;
use crate::text::str_eq;

verus! {

/// A VAD verdict on one frame.
#[derive(Clone, Copy, Debug, PartialEq, Eq, Structural)]
pub enum VadDecision {
    Active,
    Inactive,
}

#[derive(Clone, Copy, Debug, PartialEq, Eq, Structural)]
pub enum VadBackend {
    Silero,
    Energy,
}

impl VadBackend {
    pub fn as_str(&self) -> (r: &'static str)
        ensures
            r@ == (match *self {
                VadBackend::Silero => "silero",
                VadBackend::Energy => "energy",
            })@,
    {
        match self {
            VadBackend::Silero => "silero",
            VadBackend::Energy => "energy",
        }
    }
}

#[derive(Debug)]
pub struct VadConfig {
    pub sensitivity: String,
    pub hangover_ms: u64,
}

impl VadConfig {
    /// Medium sensitivity, 400 ms hangover.
    pub fn default_config() -> (r: VadConfig)
        ensures
            r.sensitivity@ == "medium"@,
            r.hangover_ms == 400,
    {
        VadConfig { sensitivity: String::from_str("medium"), hangover_ms: 400 }
    }
}

#[derive(Clone, Copy, Debug, PartialEq, Eq, Structural)]
pub enum Sensitivity {
    Low,
    Medium,
    High,
}

/// `high` and `low` are read as such; anything else is medium.
pub fn parse_sensitivity(s: &str) -> (r: Sensitivity)
    ensures
        r == (if s@ == "high"@ { Sensitivity::High } else if s@ == "low"@ { Sensitivity::Low } else { Sensitivity::Medium }),
{
    if str_eq(s, "high") {
        Sensitivity::High
    } else if str_eq(s, "low") {
        Sensitivity::Low
    } else {
        Sensitivity::Medium
    }
}

impl Sensitivity {
    /// Mean-square energy threshold of the energy backend, in millionths.
    pub fn energy_threshold_micros(&self) -> (r: u32)
        ensures
            r == (match *self {
                Sensitivity::High => 600u32,
                Sensitivity::Medium => 1000u32,
                Sensitivity::Low => 1800u32,
            }),
    {
        match self {
            Sensitivity::High => 600,
            Sensitivity::Medium => 1000,
            Sensitivity::Low => 1800,
        }
    }

    /// Speech-probability threshold of the neural backend, in hundredths.
    pub fn speech_threshold_percent(&self) -> (r: u32)
        ensures
            r == (match *self {
                Sensitivity::High => 45u32,
                Sensitivity::Medium => 55u32,
                Sensitivity::Low => 65u32,
            }),
    {
        match self {
            Sensitivity::High => 45,
            Sensitivity::Medium => 55,
            Sensitivity::Low => 65,
        }
    }
}

/// Hangover smoothing: frames stay active until `hangover_ms` have passed
/// since the last frame that carried speech.
#[derive(Clone, Copy, Debug, PartialEq, Eq, Structural)]
pub struct Hangover {
    pub hangover_ms: u64,
    pub last_speech_ms: Option<u64>,
}

pub open spec fn hangover_step(h: Hangover, speech: bool, now_ms: u64) -> (Hangover, VadDecision) {
    if speech {
        (Hangover { last_speech_ms: Some(now_ms), ..h }, VadDecision::Active)
    } else {
        match h.last_speech_ms {
            Some(t) => if now_ms >= t && now_ms - t < h.hangover_ms {
                (h, VadDecision::Active)
            } else if now_ms < t {
                (h, VadDecision::Active)
            } else {
                (Hangover { last_speech_ms: None, ..h }, VadDecision::Inactive)
            },
            None => (h, VadDecision::Inactive),
        }
    }
}

impl Hangover {
    pub fn new(hangover_ms: u64) -> (r: Hangover)
        ensures
            r == (Hangover { hangover_ms, last_speech_ms: None }),
    {
        Hangover { hangover_ms, last_speech_ms: None }
    }

    /// The smoothed decision for a frame, observed at `now_ms` on a monotonic clock.
    pub fn apply(&mut self, speech: bool, now_ms: u64) -> (r: VadDecision)
        ensures
            (*final(self), r) == hangover_step(*old(self), speech, now_ms),
    {
        if speech {
            self.last_speech_ms = Some(now_ms);
            return VadDecision::Active;
        }
        match self.last_speech_ms {
            Some(t) => {
                if now_ms < t || now_ms - t < self.hangover_ms {
                    VadDecision::Active
                } else {
                    self.last_speech_ms = None;
                    VadDecision::Inactive
                }
            },
            None => VadDecision::Inactive,
        }
    }

    pub fn set_hangover(&mut self, hangover_ms: u64)
        ensures
            *final(self) == (Hangover { hangover_ms, ..*old(self) }),
    {
        self.hangover_ms = hangover_ms;
    }

    /// Forgets the last speech instant.
    pub fn reset(&mut self)
        ensures
            *final(self) == (Hangover { last_speech_ms: None, ..*old(self) }),
    {
        self.last_speech_ms = None;
    }
}

} // verus!
