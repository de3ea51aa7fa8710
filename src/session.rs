//! The dictation session state machine, HUD states, warm-up generations, the
//! performance governor and the capture watchdog.
use vstd::prelude::*;
use crate::hotkey::HotkeyEdge;

verus! {

#[derive(Clone, Copy, Debug, PartialEq, Eq, Structural)]
pub enum SessionState {
    Idle,
    Listening,
    Processing,
}

#[derive(Clone, Copy, Debug, PartialEq, Eq, Structural)]
pub enum AsrWarmupState {
    Warming,
    Ready,
    Error,
}

/// What the HUD shows.
#[derive(Clone, Copy, Debug, PartialEq, Eq, Structural)]
pub enum HudState {
    Idle,
    Listening,
    Processing,
    Warming,
    AsrError,
}

impl HudState {
    /// The payload of the `hud-state` event.
    pub fn as_str(&self) -> (r: &'static str)
        ensures
            r@ == hud_name(*self)@,
    {
        match self {
            HudState::Idle => "idle",
            HudState::Listening => "listening",
            HudState::Processing => "processing",
            HudState::Warming => "warming",
            HudState::AsrError => "asr-error",
        }
    }
}

pub open spec fn hud_name(h: HudState) -> &'static str {
    match h {
        HudState::Idle => "idle",
        HudState::Listening => "listening",
        HudState::Processing => "processing",
        HudState::Warming => "warming",
        HudState::AsrError => "asr-error",
    }
}

/// Inputs of the session machine.
#[derive(Clone, Copy, Debug, PartialEq, Eq, Structural)]
pub enum SessionEvent {
    /// A start request, with the recognizer's warm-up state at that moment.
    Start(AsrWarmupState),
    /// The capture stopped and the transcript is being computed.
    MarkProcessing,
    /// The session is to be finalized (hotkey released, toggled off, or a
    /// secure field blocked the output).
    Complete,
    /// Finalization ran to its end.
    Finished,
}

/// The next state and the HUD state to emit, if any.
pub open spec fn session_step(s: SessionState, e: SessionEvent) -> (SessionState, Option<HudState>) {
    match e {
        SessionEvent::Start(w) => match w {
            AsrWarmupState::Warming => (s, Some(HudState::Warming)),
            AsrWarmupState::Error => (s, Some(HudState::AsrError)),
            AsrWarmupState::Ready => if s == SessionState::Idle {
                (SessionState::Listening, Some(HudState::Listening))
            } else {
                (s, None)
            },
        },
        SessionEvent::MarkProcessing => if s == SessionState::Listening {
            (SessionState::Processing, Some(HudState::Processing))
        } else {
            (s, None)
        },
        SessionEvent::Complete => match s {
            SessionState::Idle => (s, Some(HudState::Idle)),
            SessionState::Listening => (SessionState::Processing, Some(HudState::Processing)),
            SessionState::Processing => (s, None),
        },
        SessionEvent::Finished => (SessionState::Idle, Some(HudState::Idle)),
    }
}

/// Runs the machine over events; returns the final state and the HUD states emitted.
pub open spec fn session_run(s: SessionState, events: Seq<SessionEvent>) -> (SessionState, Seq<HudState>)
    decreases events.len(),
{
    if events.len() == 0 {
        (s, Seq::<HudState>::empty())
    } else {
        let (s0, h0) = session_run(s, events.drop_last());
        let (s1, h) = session_step(s0, events.last());
        match h {
            Some(x) => (s1, h0.push(x)),
            None => (s1, h0),
        }
    }
}

/// The session's current state.
#[derive(Clone, Copy, Debug, PartialEq, Eq, Structural)]
pub struct Session {
    pub state: SessionState,
}

impl Session {
    pub fn new() -> (r: Session)
        ensures
            r.state == SessionState::Idle,
    {
        Session { state: SessionState::Idle }
    }

    /// Applies one event; returns the HUD state to emit.
    pub fn apply(&mut self, e: SessionEvent) -> (r: Option<HudState>)
        ensures
            (final(self).state, r) == session_step(old(self).state, e),
    {
        match e {
            SessionEvent::Start(w) => match w {
                AsrWarmupState::Warming => Some(HudState::Warming),
                AsrWarmupState::Error => Some(HudState::AsrError),
                AsrWarmupState::Ready => {
                    if self.state == SessionState::Idle {
                        self.state = SessionState::Listening;
                        Some(HudState::Listening)
                    } else {
                        None
                    }
                },
            },
            SessionEvent::MarkProcessing => {
                if self.state == SessionState::Listening {
                    self.state = SessionState::Processing;
                    Some(HudState::Processing)
                } else {
                    None
                }
            },
            SessionEvent::Complete => match self.state {
                SessionState::Idle => Some(HudState::Idle),
                SessionState::Listening => {
                    self.state = SessionState::Processing;
                    Some(HudState::Processing)
                },
                SessionState::Processing => None,
            },
            SessionEvent::Finished => {
                self.state = SessionState::Idle;
                Some(HudState::Idle)
            },
        }
    }

    pub fn is_listening(&self) -> (r: bool)
        ensures
            r == (self.state == SessionState::Listening),
    {
        self.state == SessionState::Listening
    }
}

/// `a` is a prefix of `b`.
pub open spec fn is_prefix<A>(a: Seq<A>, b: Seq<A>) -> bool {
    a.len() <= b.len() && a == b.subrange(0, a.len() as int)
}

/// The events of one session: a start while the recognizer is ready, then
/// requests until finalization ends, with `Finished` only as the last event
/// and only after a `Complete`.
pub open spec fn one_session(events: Seq<SessionEvent>) -> bool {
    &&& events.len() >= 1
    &&& events[0] == SessionEvent::Start(AsrWarmupState::Ready)
    &&& forall|i: int| 0 <= i < events.len() - 1 ==> events[i] != SessionEvent::Finished
    &&& events.last() == SessionEvent::Finished ==> exists|j: int|
        0 < j < events.len() - 1 && events[j] == SessionEvent::Complete
    &&& forall|i: int| 0 < i < events.len() ==> !restart_not_ready(#[trigger] events[i])
}

/// A start request made while the recognizer is not ready.
pub open spec fn restart_not_ready(e: SessionEvent) -> bool {
    e == SessionEvent::Start(AsrWarmupState::Warming) || e == SessionEvent::Start(AsrWarmupState::Error)
}

proof fn lemma_session_prefix(events: Seq<SessionEvent>)
    requires
        events.len() >= 1,
        events[0] == SessionEvent::Start(AsrWarmupState::Ready),
        forall|i: int| 0 <= i < events.len() ==> events[i] != SessionEvent::Finished,
        forall|i: int| 0 < i < events.len() ==> !restart_not_ready(#[trigger] events[i]),
    ensures
        session_run(SessionState::Idle, events).0 != SessionState::Idle,
        session_run(SessionState::Idle, events).0 == SessionState::Listening ==> session_run(SessionState::Idle, events).1
            == seq![HudState::Listening],
        session_run(SessionState::Idle, events).0 == SessionState::Processing ==> session_run(SessionState::Idle, events).1
            == seq![HudState::Listening, HudState::Processing],
        (exists|j: int| 0 < j < events.len() && events[j] == SessionEvent::Complete) ==> session_run(SessionState::Idle, events).0
            == SessionState::Processing,
    decreases events.len(),
{
    if events.len() == 1 {
        assert(session_run(SessionState::Idle, events.drop_last()).1 =~= Seq::<HudState>::empty());
        assert(session_run(SessionState::Idle, events).1 =~= seq![HudState::Listening]);
    } else {
        let pre = events.drop_last();
        assert(pre[0] == events[0]);
        assert forall|i: int| 0 <= i < pre.len() implies pre[i] != SessionEvent::Finished by {
            assert(pre[i] == events[i]);
        }
        assert forall|i: int| 0 < i < pre.len() implies !restart_not_ready(#[trigger] pre[i]) by {
            assert(pre[i] == events[i]);
        }
        lemma_session_prefix(pre);
        assert(!restart_not_ready(events[events.len() - 1]));
        if exists|j: int| 0 < j < events.len() && events[j] == SessionEvent::Complete {
            let j = choose|j: int| 0 < j < events.len() && events[j] == SessionEvent::Complete;
            if j < pre.len() {
                assert(pre[j] == events[j]);
            }
        }
        let (s0, h0) = session_run(SessionState::Idle, pre);
        if s0 == SessionState::Listening {
            assert(h0.push(HudState::Processing) =~= seq![HudState::Listening, HudState::Processing]);
        }
    }
}

/// Within one session the HUD shows a prefix of listening, processing, idle.
pub proof fn lemma_session_hud_prefix(events: Seq<SessionEvent>)
    requires
        one_session(events),
    ensures
        is_prefix(session_run(SessionState::Idle, events).1, seq![HudState::Listening, HudState::Processing, HudState::Idle]),
{
    let full = seq![HudState::Listening, HudState::Processing, HudState::Idle];
    if events.last() == SessionEvent::Finished {
        let pre = events.drop_last();
        assert(pre[0] == events[0]);
        assert forall|i: int| 0 <= i < pre.len() implies pre[i] != SessionEvent::Finished by {
            assert(pre[i] == events[i]);
        }
        assert forall|i: int| 0 < i < pre.len() implies !restart_not_ready(#[trigger] pre[i]) by {
            assert(pre[i] == events[i]);
        }
        let j = choose|j: int| 0 < j < events.len() - 1 && events[j] == SessionEvent::Complete;
        assert(pre[j] == events[j]);
        lemma_session_prefix(pre);
        assert(exists|jj: int| 0 < jj < pre.len() && pre[jj] == SessionEvent::Complete);
        let (s0, h0) = session_run(SessionState::Idle, pre);
        assert(s0 == SessionState::Processing);
        assert(h0 == seq![HudState::Listening, HudState::Processing]);
        assert(session_run(SessionState::Idle, events).1 == h0.push(HudState::Idle));
        assert(session_run(SessionState::Idle, events).1 =~= full);
        assert(full.subrange(0, 3) =~= full);
    } else {
        assert forall|i: int| 0 <= i < events.len() implies events[i] != SessionEvent::Finished by {}
        lemma_session_prefix(events);
        let h = session_run(SessionState::Idle, events).1;
        if session_run(SessionState::Idle, events).0 == SessionState::Listening {
            assert(h =~= full.subrange(0, 1));
        } else {
            assert(h =~= full.subrange(0, 2));
        }
    }
}

/// A start while the recognizer warms up or failed shows `warming` or
/// `asr-error` and leaves the session idle.
pub proof fn lemma_start_not_ready(w: AsrWarmupState)
    requires
        w != AsrWarmupState::Ready,
    ensures
        session_step(SessionState::Idle, SessionEvent::Start(w)).0 == SessionState::Idle,
        session_step(SessionState::Idle, SessionEvent::Start(w)).1 == Some(if w == AsrWarmupState::Warming {
            HudState::Warming
        } else {
            HudState::AsrError
        }),
{
}

/// What happens to a delivered transcript.
#[derive(Clone, Copy, Debug, PartialEq, Eq, Structural)]
pub enum OutputMode {
    /// Inject it into the focused application.
    Paste,
    /// Only emit the transcript event.
    EmitOnly,
}

impl OutputMode {
    pub fn default_mode() -> (r: OutputMode)
        ensures
            r == OutputMode::Paste,
    {
        OutputMode::Paste
    }
}

/// How hotkey edges drive sessions.
#[derive(Clone, Copy, Debug, PartialEq, Eq, Structural)]
pub enum HotkeyMode {
    Hold,
    Toggle,
}

/// The session events that one hotkey edge produces.
pub open spec fn hotkey_events(mode: HotkeyMode, edge: HotkeyEdge, listening: bool, w: AsrWarmupState) -> Seq<SessionEvent> {
    match mode {
        HotkeyMode::Toggle => if edge == HotkeyEdge::Pressed {
            if listening {
                seq![SessionEvent::MarkProcessing, SessionEvent::Complete]
            } else {
                seq![SessionEvent::Start(w)]
            }
        } else {
            Seq::<SessionEvent>::empty()
        },
        HotkeyMode::Hold => if edge == HotkeyEdge::Pressed {
            seq![SessionEvent::Start(w)]
        } else if listening {
            seq![SessionEvent::MarkProcessing, SessionEvent::Complete]
        } else {
            seq![SessionEvent::Complete]
        },
    }
}

/// Translates a hotkey edge into session events.
pub fn on_hotkey(mode: HotkeyMode, edge: HotkeyEdge, listening: bool, w: AsrWarmupState) -> (r: Vec<SessionEvent>)
    ensures
        r@ == hotkey_events(mode, edge, listening, w),
{
    let r: Vec<SessionEvent> = match mode {
        HotkeyMode::Toggle => {
            if edge == HotkeyEdge::Pressed {
                if listening {
                    vec![SessionEvent::MarkProcessing, SessionEvent::Complete]
                } else {
                    vec![SessionEvent::Start(w)]
                }
            } else {
                Vec::new()
            }
        },
        HotkeyMode::Hold => {
            if edge == HotkeyEdge::Pressed {
                vec![SessionEvent::Start(w)]
            } else if listening {
                vec![SessionEvent::MarkProcessing, SessionEvent::Complete]
            } else {
                vec![SessionEvent::Complete]
            }
        },
    };
    assert(r@ =~= hotkey_events(mode, edge, listening, w));
    r
}

/// What the governor announces after an update.
#[derive(Clone, Copy, Debug, PartialEq, Eq, Structural)]
pub enum PerformanceEvent {
    Unchanged,
    Warning,
    Recovered,
}

/// Latency above which a finalization counts as slow.
pub const SLOW_LATENCY_MS: u64 = 2000;
/// CPU load, in hundredths of a percent, from which the machine counts as busy.
pub const BUSY_CPU_BP: u32 = 7500;
/// Hangover ceiling in performance mode.
pub const PERFORMANCE_HANGOVER_MS: u64 = 200;

/// Latency and CPU figures that decide performance mode.
#[derive(Clone, Copy, Debug, PartialEq, Eq, Structural)]
pub struct EngineMetrics {
    pub last_latency_ms: u64,
    pub consecutive_slow: u32,
    pub performance_mode: bool,
    /// Average CPU load in hundredths of a percent (0 to 10000).
    pub average_cpu_bp: u32,
}

pub open spec fn after_latency(m: EngineMetrics, latency_ms: u64) -> (EngineMetrics, PerformanceEvent) {
    if latency_ms > SLOW_LATENCY_MS && m.average_cpu_bp >= BUSY_CPU_BP {
        let slow = if m.consecutive_slow == u32::MAX { u32::MAX } else { (m.consecutive_slow + 1) as u32 };
        if slow >= 2 && !m.performance_mode {
            (EngineMetrics { last_latency_ms: latency_ms, consecutive_slow: slow, performance_mode: true, ..m },
                PerformanceEvent::Warning)
        } else {
            (EngineMetrics { last_latency_ms: latency_ms, consecutive_slow: slow, ..m }, PerformanceEvent::Unchanged)
        }
    } else if m.performance_mode {
        (EngineMetrics { last_latency_ms: latency_ms, consecutive_slow: 0, performance_mode: false, ..m },
            PerformanceEvent::Recovered)
    } else {
        (EngineMetrics { last_latency_ms: latency_ms, consecutive_slow: 0, ..m }, PerformanceEvent::Unchanged)
    }
}

pub open spec fn after_cpu(m: EngineMetrics, cpu_bp: u32) -> (EngineMetrics, PerformanceEvent) {
    if cpu_bp < BUSY_CPU_BP && m.performance_mode {
        (EngineMetrics { average_cpu_bp: cpu_bp, performance_mode: false, consecutive_slow: 0, ..m },
            PerformanceEvent::Recovered)
    } else {
        (EngineMetrics { average_cpu_bp: cpu_bp, ..m }, PerformanceEvent::Unchanged)
    }
}

impl EngineMetrics {
    pub fn new() -> (r: EngineMetrics)
        ensures
            r == (EngineMetrics { last_latency_ms: 0, consecutive_slow: 0, performance_mode: false, average_cpu_bp: 0 }),
    {
        EngineMetrics { last_latency_ms: 0, consecutive_slow: 0, performance_mode: false, average_cpu_bp: 0 }
    }

    /// Feeds the latency of one finalization.
    pub fn record_latency(&mut self, latency_ms: u64) -> (r: PerformanceEvent)
        ensures
            (*final(self), r) == after_latency(*old(self), latency_ms),
    {
        self.last_latency_ms = latency_ms;
        if latency_ms > SLOW_LATENCY_MS && self.average_cpu_bp >= BUSY_CPU_BP {
            self.consecutive_slow = self.consecutive_slow.saturating_add(1);
            if self.consecutive_slow >= 2 && !self.performance_mode {
                self.performance_mode = true;
                return PerformanceEvent::Warning;
            }
            PerformanceEvent::Unchanged
        } else {
            self.consecutive_slow = 0;
            if self.performance_mode {
                self.performance_mode = false;
                return PerformanceEvent::Recovered;
            }
            PerformanceEvent::Unchanged
        }
    }

    /// Feeds one CPU sample (hundredths of a percent).
    pub fn record_cpu_load(&mut self, cpu_bp: u32) -> (r: PerformanceEvent)
        ensures
            (*final(self), r) == after_cpu(*old(self), cpu_bp),
    {
        self.average_cpu_bp = cpu_bp;
        if cpu_bp < BUSY_CPU_BP && self.performance_mode {
            self.performance_mode = false;
            self.consecutive_slow = 0;
            return PerformanceEvent::Recovered;
        }
        PerformanceEvent::Unchanged
    }
}

/// The VAD hangover to use: capped in performance mode.
pub fn effective_hangover_ms(default_ms: u64, performance_mode: bool) -> (r: u64)
    ensures
        r == (if performance_mode && default_ms > PERFORMANCE_HANGOVER_MS { PERFORMANCE_HANGOVER_MS } else { default_ms }),
{
    if performance_mode && default_ms > PERFORMANCE_HANGOVER_MS {
        PERFORMANCE_HANGOVER_MS
    } else {
        default_ms
    }
}

/// Silence after which the capture counts as stalled.
pub const INGRESS_STALE_MS: u64 = 2000;

/// The wait between restart attempts: 2 s doubled per consecutive restart, up to 32 s.
pub open spec fn cooldown(restarts: u32) -> u64 {
    if restarts >= 4 { 32000 } else if restarts == 3 { 16000 } else if restarts == 2 { 8000 } else if restarts == 1 { 4000 } else { 2000 }
}

pub fn restart_cooldown_ms(restarts: u32) -> (r: u64)
    ensures
        r == cooldown(restarts),
        2000 <= r <= 32000,
{
    let shift: u32 = if restarts < 4 { restarts } else { 4 };
    let r: u64 = 2000u64 << shift;
    assert(shift == 0 ==> (2000u64 << 0u32) == 2000) by (bit_vector);
    assert(shift == 1 ==> (2000u64 << 1u32) == 4000) by (bit_vector);
    assert(shift == 2 ==> (2000u64 << 2u32) == 8000) by (bit_vector);
    assert(shift == 3 ==> (2000u64 << 3u32) == 16000) by (bit_vector);
    assert(shift == 4 ==> (2000u64 << 4u32) == 32000) by (bit_vector);
    r
}

/// Whether the watchdog should try to restart the capture now.
pub fn watchdog_should_restart(synthetic: bool, since_ingress_ms: u64, restarts: u32, since_last_attempt_ms: Option<u64>) -> (r: bool)
    ensures
        r == (!synthetic && since_ingress_ms >= INGRESS_STALE_MS && match since_last_attempt_ms {
            Some(t) => t >= cooldown(restarts),
            None => true,
        }),
{
    if synthetic || since_ingress_ms < INGRESS_STALE_MS {
        return false;
    }
    match since_last_attempt_ms {
        Some(t) => t >= restart_cooldown_ms(restarts),
        None => true,
    }
}

} // verus!
