use vstd::prelude::*;

use crate::config::{config_wf, default_config, spec_default_config, StreamConfig, StreamConfigView};
use crate::stats::{copy_stats, initial_stats, spec_initial_stats, StreamStats, StreamStatsView};

verus! {

/// The two canonical states of a streaming session. The session owns exactly
/// one value of this type at any time; no intermediate states are modeled,
/// so start and stop are atomic from the caller's perspective.
#[derive(Debug, Clone, Copy, PartialEq, Eq, Structural)]
pub enum SessionState {
    Idle,
    Streaming,
}

/// Plain identifier standing for the one spawned encoder process. Whoever
/// performs the spawn mints it, the engine holds it while streaming, and the
/// stop decision hands it back so that exactly that instance is terminated.
#[derive(Debug, Clone, Copy, PartialEq, Eq, Structural)]
pub struct ProcessHandle {
    pub id: u64,
}

/// Every way a start or stop request can fail. All variants are recoverable;
/// the detail strings carry the launcher's own diagnostic.
#[derive(Debug, Clone, PartialEq, Eq)]
pub enum StreamError {
    /// Start requested while a session is already streaming.
    AlreadyActive,
    /// Stop requested while idle.
    NotActive,
    /// The encoder process could not be spawned.
    LaunchFailed(String),
    /// The termination request could not be issued.
    TerminationFailed(String),
}

/// One attempted transition, as the abstract machine sees it: which operation
/// was requested, and whether the launcher's side effect succeeded.
#[derive(Debug, Clone, Copy, PartialEq, Eq, Structural)]
pub enum SessionOp {
    Start { launch_ok: bool },
    Stop { terminate_ok: bool },
}

/// The canonical transition function of the session machine. Only a start
/// admitted while idle whose launch succeeds, or a stop admitted while
/// streaming whose termination succeeds, moves the state; every other attempt
/// leaves it exactly where it was.
pub open spec fn op_step(s: SessionState, op: SessionOp) -> SessionState {
    match op {
        SessionOp::Start { launch_ok } => if s is Idle && launch_ok {
            SessionState::Streaming
        } else {
            s
        },
        SessionOp::Stop { terminate_ok } => if s is Streaming && terminate_ok {
            SessionState::Idle
        } else {
            s
        },
    }
}

/// Whether an attempted transition succeeds from the given state.
pub open spec fn op_succeeds(s: SessionState, op: SessionOp) -> bool {
    match op {
        SessionOp::Start { launch_ok } => s is Idle && launch_ok,
        SessionOp::Stop { terminate_ok } => s is Streaming && terminate_ok,
    }
}

/// Mathematical model of the whole engine: session state, active
/// configuration, process handle and statistics snapshot.
#[verifier::ext_equal]
pub struct StreamingEngineView {
    pub state: SessionState,
    pub config: StreamConfigView,
    pub handle: Option<ProcessHandle>,
    pub stats: StreamStatsView,
}

/// Invariant tying the engine's parts together: a process handle is held
/// exactly while streaming, and the active configuration is then one the
/// machine was allowed to trust.
pub open spec fn engine_inv(v: StreamingEngineView) -> bool {
    &&& (v.state is Streaming <==> v.handle is Some)
    &&& (v.state is Streaming ==> config_wf(v.config))
}

/// The session engine: one unit of exclusive access holding the canonical
/// Idle/Streaming state, the active configuration and the process handle,
/// plus the independently readable statistics snapshot.
///
/// Start and stop each fall in two halves around the process side effect:
/// a decision half that only reads the state and either admits or rejects the
/// request, and a completion half that records the launcher's outcome. A
/// caller holds exclusive access across both halves, so no two transitions
/// interleave.
pub struct StreamingEngine {
    state: SessionState,
    config: StreamConfig,
    handle: Option<ProcessHandle>,
    stats: StreamStats,
}

impl View for StreamingEngine {
    type V = StreamingEngineView;

    closed spec fn view(&self) -> StreamingEngineView {
        StreamingEngineView {
            state: self.state,
            config: self.config@,
            handle: self.handle,
            stats: self.stats@,
        }
    }
}

impl StreamingEngine {
    /// Creates an idle engine holding the default configuration and the
    /// placeholder statistics snapshot.
    pub fn new() -> (engine: Self)
        ensures
            engine@.state is Idle,
            engine@.handle is None,
            engine@.config == spec_default_config(),
            engine@.stats == spec_initial_stats(),
            engine_inv(engine@),
    {
        StreamingEngine {
            state: SessionState::Idle,
            config: default_config(),
            handle: None,
            stats: initial_stats(),
        }
    }

    /// Decision half of `start`: under exclusive access, admits the request
    /// exactly when the session is idle, and rejects it with `AlreadyActive`
    /// otherwise. The receiver is only read, so a rejected start leaves the
    /// state, the active configuration and the process handle unchanged.
    pub fn start_stream(&self) -> (r: Result<(), StreamError>)
        ensures
            (r is Ok) <==> self@.state is Idle,
            r matches Err(e) ==> e is AlreadyActive && self@.state is Streaming,
    {
        match self.state {
            SessionState::Idle => Ok(()),
            SessionState::Streaming => Err(StreamError::AlreadyActive),
        }
    }

    /// Completion half of `start`: records the launcher's outcome for a start
    /// that was admitted while idle. On a successful launch the state becomes
    /// `Streaming` and the configuration and handle are stored as the active
    /// ones; on a failed launch nothing changes and the launcher's diagnostic
    /// comes back as `LaunchFailed`. The statistics snapshot is never touched.
    pub fn finish_start(
        &mut self,
        config: StreamConfig,
        launched: Result<ProcessHandle, String>,
    ) -> (r: Result<(), StreamError>)
        requires
            engine_inv(old(self)@),
            old(self)@.state is Idle,
            config_wf(config@),
        ensures
            engine_inv(final(self)@),
            final(self)@.state == op_step(old(self)@.state, (SessionOp::Start { launch_ok: launched is Ok })),
            (r is Ok) == op_succeeds(old(self)@.state, (SessionOp::Start { launch_ok: launched is Ok })),
            final(self)@.stats == old(self)@.stats,
            launched matches Ok(h) ==> final(self)@.handle == Some(h) && final(self)@.config == config@,
            launched matches Err(d) ==> r == Err::<(), StreamError>(StreamError::LaunchFailed(d))
                && final(self)@ == old(self)@,
    {
        match launched {
            Ok(h) => {
                self.state = SessionState::Streaming;
                self.config = config;
                self.handle = Some(h);
                Ok(())
            },
            Err(detail) => Err(StreamError::LaunchFailed(detail)),
        }
    }

    /// Decision half of `stop`: under exclusive access, admits the request
    /// exactly when the session is streaming, handing back the handle of the
    /// process to terminate, and rejects it with `NotActive` otherwise. The
    /// receiver is only read, so a rejected stop has no side effect.
    pub fn stop_stream(&self) -> (r: Result<ProcessHandle, StreamError>)
        requires
            engine_inv(self@),
        ensures
            (r is Ok) <==> self@.state is Streaming,
            r matches Ok(h) ==> self@.handle == Some(h),
            r matches Err(e) ==> e is NotActive && self@.state is Idle,
    {
        match self.state {
            SessionState::Streaming => Ok(self.handle.unwrap()),
            SessionState::Idle => Err(StreamError::NotActive),
        }
    }

    /// Completion half of `stop`: records the terminator's outcome for a stop
    /// that was admitted while streaming. On success the state becomes `Idle`
    /// and the handle is dropped, while the last configuration is retained;
    /// on failure everything stays as it was — still `Streaming`, so the
    /// caller may retry — and the diagnostic comes back as
    /// `TerminationFailed`. The statistics snapshot is never touched.
    pub fn finish_stop(&mut self, terminated: Result<(), String>) -> (r: Result<(), StreamError>)
        requires
            engine_inv(old(self)@),
            old(self)@.state is Streaming,
        ensures
            engine_inv(final(self)@),
            final(self)@.state == op_step(old(self)@.state, (SessionOp::Stop { terminate_ok: terminated is Ok })),
            (r is Ok) == op_succeeds(old(self)@.state, (SessionOp::Stop { terminate_ok: terminated is Ok })),
            final(self)@.stats == old(self)@.stats,
            final(self)@.config == old(self)@.config,
            terminated is Ok ==> final(self)@.handle is None,
            terminated matches Err(d) ==> r == Err::<(), StreamError>(StreamError::TerminationFailed(d))
                && final(self)@ == old(self)@,
    {
        match terminated {
            Ok(()) => {
                self.state = SessionState::Idle;
                self.handle = None;
                Ok(())
            },
            Err(detail) => Err(StreamError::TerminationFailed(detail)),
        }
    }

    /// Returns a copy of the current statistics snapshot. Always succeeds,
    /// needs no precondition, and reads nothing but the snapshot, so callers
    /// may keep the snapshot's lock independent of the session lock.
    pub fn get_stats(&self) -> (r: StreamStats)
        ensures
            r@ == self@.stats,
    {
        copy_stats(&self.stats)
    }

    /// Replaces the statistics snapshot: the seam where a telemetry producer
    /// would attach. Leaves the session state, the active configuration and
    /// the process handle untouched.
    pub fn set_stats(&mut self, stats: StreamStats)
        ensures
            final(self)@.stats == stats@,
            final(self)@.state == old(self)@.state,
            final(self)@.config == old(self)@.config,
            final(self)@.handle == old(self)@.handle,
            engine_inv(old(self)@) ==> engine_inv(final(self)@),
    {
        self.stats = stats;
    }

    /// Whether the session is currently streaming.
    pub fn is_streaming(&self) -> (r: bool)
        ensures
            r == (self@.state is Streaming),
    {
        match self.state {
            SessionState::Streaming => true,
            SessionState::Idle => false,
        }
    }

    /// The configuration captured by the most recent successful start, or the
    /// default one before any.
    pub fn current_config(&self) -> (c: &StreamConfig)
        ensures
            c@ == self@.config,
    {
        &self.config
    }

    /// The handle of the active encoder process, if the session is streaming.
    pub fn active_handle(&self) -> (h: Option<ProcessHandle>)
        ensures
            h == self@.handle,
    {
        self.handle
    }
}

} // verus!
