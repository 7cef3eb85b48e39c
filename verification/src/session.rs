//! The capture session: at most one capture runs at a time, and every
//! change of state is decided here. The caller performs the action that a
//! step returns (starting and joining threads, opening streams) and reports
//! what came of it as the next event.

use vstd::prelude::*;
use crate::device::{describes, list_devices, listed, AudioDeviceInfo, DeviceProbe};
use crate::text::same_text;

verus! {

/// What a capture request asks to record.
#[derive(Clone, Copy, Debug, PartialEq, Eq, Structural)]
pub enum CaptureSource {
    Mic,
    System,
    Mixed,
}

/// Why a capture could not be started.
#[derive(Clone, Copy, Debug, PartialEq, Eq, Structural)]
pub enum CaptureError {
    /// The request names a source other than "mic", "system" or "mixed".
    UnsupportedSource,
    /// No producer could be started.
    NoCaptureDevice,
}

/// The four states a session is seen in from outside.
#[derive(Clone, Copy, Debug, PartialEq, Eq, Structural)]
pub enum SessionState {
    Idle,
    Starting,
    Running,
    Stopping,
}

/// Where a session stands, with what it has to remember there.
#[derive(Clone, Copy, Debug, PartialEq, Eq, Structural)]
pub enum Phase {
    /// Nothing runs.
    Idle,
    /// A start was requested while a capture ran: that capture is being
    /// joined, and the request is taken up when it has been. `None`
    /// stands for a request whose source was not recognized.
    Restarting { request: Option<CaptureSource> },
    /// The native loopback backend has been asked to start.
    StartingLoopback { source: CaptureSource },
    /// The mixer has been spawned and its readiness is awaited.
    AwaitingReady { loopback: bool },
    /// A capture runs, with a mixer thread, a loopback thread, or both.
    Running { mixer: bool, loopback: bool },
    /// The capture is being joined; `failure` is reported when it has been.
    Stopping { failure: Option<CaptureError> },
}

/// What the caller reports to the session.
#[derive(Clone, Copy, Debug, PartialEq, Eq, Structural)]
pub enum SessionEvent {
    /// A capture is asked for; `None` where the source was not recognized.
    StartRequested(Option<CaptureSource>),
    /// The capture is to end.
    StopRequested,
    /// Every thread of the capture has been joined.
    Joined,
    /// The native loopback backend runs.
    LoopbackStarted,
    /// The native loopback backend could not be started.
    LoopbackFailed,
    /// The mixer reported this many started producers.
    Ready(usize),
    /// The mixer reported nothing within the readiness timeout.
    ReadyTimedOut,
}

/// What the caller is to do next.
#[derive(Clone, Copy, Debug, PartialEq, Eq, Structural)]
pub enum SessionAction {
    /// Nothing: the event does not belong to the present phase.
    Ignore,
    /// Send the stop signal, raise the loopback backend's cancellation
    /// flag, join every thread, then report `Joined`.
    SignalAndJoin,
    /// Start the native loopback backend, emitting chunks itself or
    /// feeding the mixer, then report how that went.
    StartLoopback { for_mixing: bool },
    /// Resolve the devices named, open their streams, spawn the mixer and
    /// wait for its readiness, then report `Ready` or `ReadyTimedOut`.
    SpawnMixer { microphone: bool, portable_system: bool, loopback_feed: bool },
    /// Return success to whoever asked.
    Succeed,
    /// Return this error to whoever asked.
    Fail(CaptureError),
}

/// Readiness timeout, in milliseconds.
pub const READY_TIMEOUT_MS: u64 = 2000;

/// The source that a request names.
pub open spec fn source_named(text: Seq<char>) -> Option<CaptureSource> {
    if text == "mic"@ {
        Some(CaptureSource::Mic)
    } else if text == "system"@ {
        Some(CaptureSource::System)
    } else if text == "mixed"@ {
        Some(CaptureSource::Mixed)
    } else {
        None
    }
}

/// The state a phase is seen as.
pub open spec fn state_of(phase: Phase) -> SessionState {
    match phase {
        Phase::Idle => SessionState::Idle,
        Phase::Restarting { .. } => SessionState::Stopping,
        Phase::StartingLoopback { .. } => SessionState::Starting,
        Phase::AwaitingReady { .. } => SessionState::Starting,
        Phase::Running { .. } => SessionState::Running,
        Phase::Stopping { .. } => SessionState::Stopping,
    }
}

/// How a capture begins when nothing runs.
///
/// An unrecognized source fails at once. Where the native loopback
/// backend exists, "system" and "mixed" start it first; elsewhere the
/// mixer is spawned on the portable devices that the source calls for.
pub open spec fn begin(request: Option<CaptureSource>, native_loopback: bool) -> (
    Phase,
    SessionAction,
) {
    match request {
        None => (Phase::Idle, SessionAction::Fail(CaptureError::UnsupportedSource)),
        Some(CaptureSource::Mic) => (
            Phase::AwaitingReady { loopback: false },
            SessionAction::SpawnMixer {
                microphone: true,
                portable_system: false,
                loopback_feed: false,
            },
        ),
        Some(CaptureSource::System) => if native_loopback {
            (
                Phase::StartingLoopback { source: CaptureSource::System },
                SessionAction::StartLoopback { for_mixing: false },
            )
        } else {
            (
                Phase::AwaitingReady { loopback: false },
                SessionAction::SpawnMixer {
                    microphone: false,
                    portable_system: true,
                    loopback_feed: false,
                },
            )
        },
        Some(CaptureSource::Mixed) => if native_loopback {
            (
                Phase::StartingLoopback { source: CaptureSource::Mixed },
                SessionAction::StartLoopback { for_mixing: true },
            )
        } else {
            (
                Phase::AwaitingReady { loopback: false },
                SessionAction::SpawnMixer {
                    microphone: true,
                    portable_system: true,
                    loopback_feed: false,
                },
            )
        },
    }
}

/// The next phase and the action to perform, for a phase and an event.
/// An event that does not belong to the phase changes nothing.
pub open spec fn step(phase: Phase, native_loopback: bool, event: SessionEvent) -> (
    Phase,
    SessionAction,
) {
    match (phase, event) {
        (Phase::Idle, SessionEvent::StartRequested(request)) => begin(request, native_loopback),
        (Phase::Idle, SessionEvent::StopRequested) => (Phase::Idle, SessionAction::Succeed),
        (Phase::Running { .. }, SessionEvent::StartRequested(request)) => (
            Phase::Restarting { request },
            SessionAction::SignalAndJoin,
        ),
        (Phase::Running { .. }, SessionEvent::StopRequested) => (
            Phase::Stopping { failure: None },
            SessionAction::SignalAndJoin,
        ),
        (Phase::Restarting { request }, SessionEvent::Joined) => begin(request, native_loopback),
        (Phase::Stopping { failure }, SessionEvent::Joined) => match failure {
            Some(e) => (Phase::Idle, SessionAction::Fail(e)),
            None => (Phase::Idle, SessionAction::Succeed),
        },
        (Phase::StartingLoopback { source }, SessionEvent::LoopbackStarted) => match source {
            CaptureSource::Mixed => (
                Phase::AwaitingReady { loopback: true },
                SessionAction::SpawnMixer {
                    microphone: true,
                    portable_system: false,
                    loopback_feed: true,
                },
            ),
            _ => (Phase::Running { mixer: false, loopback: true }, SessionAction::Succeed),
        },
        (Phase::StartingLoopback { source }, SessionEvent::LoopbackFailed) => match source {
            CaptureSource::Mixed => (
                Phase::AwaitingReady { loopback: false },
                SessionAction::SpawnMixer {
                    microphone: true,
                    portable_system: true,
                    loopback_feed: false,
                },
            ),
            _ => (Phase::Idle, SessionAction::Fail(CaptureError::NoCaptureDevice)),
        },
        (Phase::AwaitingReady { loopback }, SessionEvent::Ready(count)) => if count > 0 {
            (Phase::Running { mixer: true, loopback }, SessionAction::Succeed)
        } else {
            (
                Phase::Stopping { failure: Some(CaptureError::NoCaptureDevice) },
                SessionAction::SignalAndJoin,
            )
        },
        (Phase::AwaitingReady { .. }, SessionEvent::ReadyTimedOut) => (
            Phase::Stopping { failure: Some(CaptureError::NoCaptureDevice) },
            SessionAction::SignalAndJoin,
        ),
        _ => (phase, SessionAction::Ignore),
    }
}

/// The action starts a thread.
pub open spec fn spawns(action: SessionAction) -> bool {
    action is StartLoopback || action is SpawnMixer
}

/// Recognizes the source of a request.
pub fn parse_source(text: &str) -> (r: Result<CaptureSource, CaptureError>)
    ensures
        match source_named(text@) {
            Some(source) => r == Ok::<CaptureSource, CaptureError>(source),
            None => r == Err::<CaptureSource, CaptureError>(CaptureError::UnsupportedSource),
        },
{
    if same_text(text, "mic") {
        Ok(CaptureSource::Mic)
    } else if same_text(text, "system") {
        Ok(CaptureSource::System)
    } else if same_text(text, "mixed") {
        Ok(CaptureSource::Mixed)
    } else {
        Err(CaptureError::UnsupportedSource)
    }
}

/// The owner of the one capture that may run.
#[derive(Clone, Copy, Debug)]
pub struct AudioManager {
    /// Where the session stands.
    pub phase: Phase,
    /// Whether the platform has a native loopback backend.
    pub native_loopback: bool,
}

impl AudioManager {
    /// A manager with nothing running.
    pub fn new(native_loopback: bool) -> (m: AudioManager)
        ensures
            m.phase == Phase::Idle,
            m.native_loopback == native_loopback,
    {
        AudioManager { phase: Phase::Idle, native_loopback }
    }

    /// The catalog of the endpoints reported: one entry for each that has
    /// an input configuration, in the order reported. The session is not
    /// touched.
    pub fn list_devices(&self, probes: &Vec<DeviceProbe>) -> (out: Vec<AudioDeviceInfo>)
        ensures
            out@.len() == listed(probes@, probes@.len() as int).len(),
            forall|k: int|
                0 <= k < out@.len() ==> {
                    let at = #[trigger] listed(probes@, probes@.len() as int)[k];
                    0 <= at < probes@.len() && describes(probes@[at], out@[k])
                },
    {
        list_devices(probes)
    }

    /// The state the session is seen in.
    pub fn state(&self) -> (s: SessionState)
        ensures
            s == state_of(self.phase),
    {
        match self.phase {
            Phase::Idle => SessionState::Idle,
            Phase::Restarting { .. } => SessionState::Stopping,
            Phase::StartingLoopback { .. } => SessionState::Starting,
            Phase::AwaitingReady { .. } => SessionState::Starting,
            Phase::Running { .. } => SessionState::Running,
            Phase::Stopping { .. } => SessionState::Stopping,
        }
    }

    fn begin(&mut self, request: Option<CaptureSource>) -> (action: SessionAction)
        ensures
            (final(self).phase, action) == begin(request, old(self).native_loopback),
            final(self).native_loopback == old(self).native_loopback,
    {
        let native: bool = self.native_loopback;
        match request {
            None => {
                self.phase = Phase::Idle;
                SessionAction::Fail(CaptureError::UnsupportedSource)
            },
            Some(CaptureSource::Mic) => {
                self.phase = Phase::AwaitingReady { loopback: false };
                SessionAction::SpawnMixer {
                    microphone: true,
                    portable_system: false,
                    loopback_feed: false,
                }
            },
            Some(source) => {
                if native {
                    self.phase = Phase::StartingLoopback { source };
                    match source {
                        CaptureSource::Mixed => SessionAction::StartLoopback { for_mixing: true },
                        _ => SessionAction::StartLoopback { for_mixing: false },
                    }
                } else {
                    self.phase = Phase::AwaitingReady { loopback: false };
                    match source {
                        CaptureSource::Mixed => SessionAction::SpawnMixer {
                            microphone: true,
                            portable_system: true,
                            loopback_feed: false,
                        },
                        _ => SessionAction::SpawnMixer {
                            microphone: false,
                            portable_system: true,
                            loopback_feed: false,
                        },
                    }
                }
            },
        }
    }

    /// Takes one event: moves to the next phase and returns the action to
    /// perform.
    pub fn handle(&mut self, event: SessionEvent) -> (action: SessionAction)
        ensures
            (final(self).phase, action) == step(old(self).phase, old(self).native_loopback, event),
            final(self).native_loopback == old(self).native_loopback,
    {
        let phase: Phase = self.phase;
        match (phase, event) {
            (Phase::Idle, SessionEvent::StartRequested(request)) => self.begin(request),
            (Phase::Idle, SessionEvent::StopRequested) => SessionAction::Succeed,
            (Phase::Running { .. }, SessionEvent::StartRequested(request)) => {
                self.phase = Phase::Restarting { request };
                SessionAction::SignalAndJoin
            },
            (Phase::Running { .. }, SessionEvent::StopRequested) => {
                self.phase = Phase::Stopping { failure: None };
                SessionAction::SignalAndJoin
            },
            (Phase::Restarting { request }, SessionEvent::Joined) => self.begin(request),
            (Phase::Stopping { failure }, SessionEvent::Joined) => {
                self.phase = Phase::Idle;
                match failure {
                    Some(e) => SessionAction::Fail(e),
                    None => SessionAction::Succeed,
                }
            },
            (Phase::StartingLoopback { source }, SessionEvent::LoopbackStarted) => {
                match source {
                    CaptureSource::Mixed => {
                        self.phase = Phase::AwaitingReady { loopback: true };
                        SessionAction::SpawnMixer {
                            microphone: true,
                            portable_system: false,
                            loopback_feed: true,
                        }
                    },
                    _ => {
                        self.phase = Phase::Running { mixer: false, loopback: true };
                        SessionAction::Succeed
                    },
                }
            },
            (Phase::StartingLoopback { source }, SessionEvent::LoopbackFailed) => {
                match source {
                    CaptureSource::Mixed => {
                        self.phase = Phase::AwaitingReady { loopback: false };
                        SessionAction::SpawnMixer {
                            microphone: true,
                            portable_system: true,
                            loopback_feed: false,
                        }
                    },
                    _ => {
                        self.phase = Phase::Idle;
                        SessionAction::Fail(CaptureError::NoCaptureDevice)
                    },
                }
            },
            (Phase::AwaitingReady { loopback }, SessionEvent::Ready(count)) => {
                if count > 0 {
                    self.phase = Phase::Running { mixer: true, loopback };
                    SessionAction::Succeed
                } else {
                    self.phase = Phase::Stopping { failure: Some(CaptureError::NoCaptureDevice) };
                    SessionAction::SignalAndJoin
                }
            },
            (Phase::AwaitingReady { .. }, SessionEvent::ReadyTimedOut) => {
                self.phase = Phase::Stopping { failure: Some(CaptureError::NoCaptureDevice) };
                SessionAction::SignalAndJoin
            },
            _ => SessionAction::Ignore,
        }
    }

    /// Asks for a capture of the source that `source` names. A capture
    /// that runs is stopped and joined first.
    pub fn start(&mut self, source: &str) -> (action: SessionAction)
        ensures
            (final(self).phase, action) == step(
                old(self).phase,
                old(self).native_loopback,
                SessionEvent::StartRequested(source_named(source@)),
            ),
            final(self).native_loopback == old(self).native_loopback,
    {
        let request: Option<CaptureSource> = match parse_source(source) {
            Ok(s) => Some(s),
            Err(_) => None,
        };
        self.handle(SessionEvent::StartRequested(request))
    }

    /// Asks for the capture to end. With nothing running this succeeds at
    /// once and changes nothing.
    pub fn stop(&mut self) -> (action: SessionAction)
        ensures
            (final(self).phase, action) == step(
                old(self).phase,
                old(self).native_loopback,
                SessionEvent::StopRequested,
            ),
            final(self).native_loopback == old(self).native_loopback,
            old(self).phase == Phase::Idle ==> final(self).phase == Phase::Idle && action
                == SessionAction::Succeed,
    {
        self.handle(SessionEvent::StopRequested)
    }
}

/// Stopping with nothing running succeeds and leaves nothing running, so
/// stopping twice in a row is the same as stopping once.
pub proof fn lemma_stop_when_idle(native_loopback: bool)
    ensures
        step(Phase::Idle, native_loopback, SessionEvent::StopRequested) == (
            Phase::Idle,
            SessionAction::Succeed,
        ),
        step(
            step(Phase::Idle, native_loopback, SessionEvent::StopRequested).0,
            native_loopback,
            SessionEvent::StopRequested,
        ) == (Phase::Idle, SessionAction::Succeed),
{
}

/// Stopping a running capture joins its threads and ends with nothing
/// running; a second stop after that changes nothing.
pub proof fn lemma_stop_when_running(native_loopback: bool, mixer: bool, loopback: bool)
    ensures
        ({
            let first = step(
                Phase::Running { mixer, loopback },
                native_loopback,
                SessionEvent::StopRequested,
            );
            let joined = step(first.0, native_loopback, SessionEvent::Joined);
            &&& first.1 == SessionAction::SignalAndJoin
            &&& state_of(first.0) == SessionState::Stopping
            &&& joined == (Phase::Idle, SessionAction::Succeed)
        }),
{
}

/// A start while a capture runs first joins that capture: the request
/// itself starts no thread, and once the join is reported the session
/// goes on exactly as a start from idle does.
pub proof fn lemma_restart_joins_first(
    native_loopback: bool,
    mixer: bool,
    loopback: bool,
    request: Option<CaptureSource>,
)
    ensures
        ({
            let asked = step(
                Phase::Running { mixer, loopback },
                native_loopback,
                SessionEvent::StartRequested(request),
            );
            &&& asked.1 == SessionAction::SignalAndJoin
            &&& !spawns(asked.1)
            &&& state_of(asked.0) == SessionState::Stopping
            &&& step(asked.0, native_loopback, SessionEvent::Joined) == step(
                Phase::Idle,
                native_loopback,
                SessionEvent::StartRequested(request),
            )
        }),
{
}

/// Threads are started only for a session that is beginning: from idle,
/// on the join of the capture before it, or on the loopback backend's
/// answer. No event starts a thread while a capture runs, is awaited or
/// is being stopped, so two captures never run side by side.
pub proof fn lemma_spawn_only_when_clear(phase: Phase, native_loopback: bool, event: SessionEvent)
    requires
        spawns(step(phase, native_loopback, event).1),
    ensures
        (phase == Phase::Idle && event is StartRequested) || (phase is Restarting && event
            == SessionEvent::Joined) || (phase is StartingLoopback && (event
            == SessionEvent::LoopbackStarted || event == SessionEvent::LoopbackFailed)),
        !(phase is Running),
{
}

/// Where the native loopback backend exists, a capture of the system
/// source alone never goes through the portable capture layer: it starts
/// with the backend, and whatever the backend answers, no mixer is spawned.
pub proof fn lemma_system_stays_native(event: SessionEvent)
    ensures
        step(
            Phase::Idle,
            true,
            SessionEvent::StartRequested(Some(CaptureSource::System)),
        ) == (
            Phase::StartingLoopback { source: CaptureSource::System },
            SessionAction::StartLoopback { for_mixing: false },
        ),
        !(step(Phase::StartingLoopback { source: CaptureSource::System }, true, event).1
            is SpawnMixer),
        !(step(Phase::StartingLoopback { source: CaptureSource::System }, true, event).0
            is AwaitingReady),
{
}

/// A capture is only ever running after a backend or a producer has
/// reported that it started.
pub proof fn lemma_running_needs_a_producer(
    phase: Phase,
    native_loopback: bool,
    event: SessionEvent,
)
    requires
        !(phase is Running),
        step(phase, native_loopback, event).0 is Running,
    ensures
        step(phase, native_loopback, event).1 == SessionAction::Succeed,
        (event == SessionEvent::LoopbackStarted) || (event is Ready && event->Ready_0 > 0),
{
}

/// When no producer starts, or none reports within the timeout, the
/// session joins whatever it had started and then fails with
/// `NoCaptureDevice`, with nothing left running.
pub proof fn lemma_no_producer_fails(native_loopback: bool, loopback: bool, timed_out: bool)
    ensures
        ({
            let event = if timed_out {
                SessionEvent::ReadyTimedOut
            } else {
                SessionEvent::Ready(0)
            };
            let failed = step(Phase::AwaitingReady { loopback }, native_loopback, event);
            let joined = step(failed.0, native_loopback, SessionEvent::Joined);
            &&& failed.1 == SessionAction::SignalAndJoin
            &&& state_of(failed.0) == SessionState::Stopping
            &&& joined == (Phase::Idle, SessionAction::Fail(CaptureError::NoCaptureDevice))
        }),
{
}

} // verus!
