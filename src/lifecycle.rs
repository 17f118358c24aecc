//! The sidecar's runtime life: resolving and starting it, and the shutdown
//! coordinator, a state machine that the application's event loop drives.
//! The loop performs each returned action and feeds its outcome back as an
//! event.
use vstd::prelude::*;
use crate::artifact::{artifact_name, artifact_file_name};

verus! {

/// Where the child process stands. It only moves forward:
/// `NotStarted`, `Running`, `ShuttingDown`, `Terminated`.
#[derive(Debug, Clone, Copy, PartialEq, Eq, Structural)]
pub enum Phase {
    NotStarted,
    Running,
    ShuttingDown,
    Terminated,
}

/// The position of a phase in the forward order.
pub open spec fn rank(p: Phase) -> nat {
    match p {
        Phase::NotStarted => 0,
        Phase::Running => 1,
        Phase::ShuttingDown => 2,
        Phase::Terminated => 3,
    }
}

/// How the child is stopped, chosen when the application is built: killed
/// directly, or first asked over HTTP to stop itself.
#[derive(Debug, Clone, Copy, PartialEq, Eq, Structural)]
pub enum Strategy {
    DirectKill,
    HttpShutdown,
}

/// What the event loop reports to the coordinator.
#[derive(Debug, Clone, Copy, PartialEq, Eq, Structural)]
pub enum Event {
    /// The child was started with process id `pid`.
    Spawned { pid: u32 },
    /// The application was asked to close.
    CloseRequested,
    /// The shutdown request finished, `delivered` or not (refused, timed out).
    ShutdownRequestFinished { delivered: bool },
    /// The wait for the child to exit on its own ran out.
    ExitWaitElapsed,
    /// The operating system confirmed that the child has exited, after a kill
    /// and wait or on its own.
    Exited,
}

/// What the event loop is asked to do next.
#[derive(Debug, Clone, Copy, PartialEq, Eq, Structural)]
pub enum Action {
    Nothing,
    /// Send one `POST` to the shutdown endpoint, waiting at most `timeout_ms`.
    PostShutdown { timeout_ms: u64 },
    /// Wait at most `timeout_ms` for the child to exit on its own; report
    /// `Exited` if it does, `ExitWaitElapsed` if it does not.
    AwaitExit { timeout_ms: u64 },
    /// Kill the child and wait until the operating system reaps it; a child
    /// that is already gone counts as killed.
    KillAndWait,
}

/// The bound on the wait for the shutdown request, in milliseconds.
pub const SHUTDOWN_REQUEST_TIMEOUT_MS: u64 = 2000;

/// The bound on the wait for the child to exit after a delivered shutdown
/// request, in milliseconds.
pub const EXIT_GRACE_MS: u64 = 3000;

/// What the coordinator knows of the child: how it is stopped, where it
/// stands, and its process id once it was started.
#[derive(Debug, Clone, Copy, PartialEq, Eq, Structural)]
pub struct ProcessState {
    pub strategy: Strategy,
    pub phase: Phase,
    pub pid: Option<u32>,
}

/// The one handle on the child process. Its state changes only through
/// `handle`, so the phase never moves backwards.
#[derive(Debug, PartialEq, Eq)]
pub struct SidecarProcess {
    strategy: Strategy,
    phase: Phase,
    pid: Option<u32>,
}

impl View for SidecarProcess {
    type V = ProcessState;

    closed spec fn view(&self) -> ProcessState {
        ProcessState { strategy: self.strategy, phase: self.phase, pid: self.pid }
    }
}

/// The action that begins a shutdown under `strategy`.
pub open spec fn first_shutdown_action(strategy: Strategy) -> Action {
    match strategy {
        Strategy::HttpShutdown => Action::PostShutdown { timeout_ms: SHUTDOWN_REQUEST_TIMEOUT_MS },
        Strategy::DirectKill => Action::KillAndWait,
    }
}

/// What follows the shutdown request: a bounded wait for the child's own
/// exit when the request was delivered, the kill at once when it was not.
pub open spec fn after_request(delivered: bool) -> Action {
    if delivered {
        Action::AwaitExit { timeout_ms: EXIT_GRACE_MS }
    } else {
        Action::KillAndWait
    }
}

/// The coordinator's step: the state after event `e` in state `s`, and the
/// action to perform.
pub open spec fn next(s: ProcessState, e: Event) -> (ProcessState, Action) {
    match (s.phase, e) {
        (Phase::NotStarted, Event::Spawned { pid }) =>
            (ProcessState { phase: Phase::Running, pid: Some(pid), ..s }, Action::Nothing),
        (Phase::NotStarted, Event::CloseRequested) =>
            (ProcessState { phase: Phase::Terminated, ..s }, Action::Nothing),
        (Phase::Running, Event::CloseRequested) =>
            (ProcessState { phase: Phase::ShuttingDown, ..s }, first_shutdown_action(s.strategy)),
        (Phase::Running, Event::Exited) =>
            (ProcessState { phase: Phase::Terminated, ..s }, Action::Nothing),
        (Phase::ShuttingDown, Event::ShutdownRequestFinished { delivered }) =>
            (s, after_request(delivered)),
        (Phase::ShuttingDown, Event::ExitWaitElapsed) => (s, Action::KillAndWait),
        (Phase::ShuttingDown, Event::Exited) =>
            (ProcessState { phase: Phase::Terminated, ..s }, Action::Nothing),
        _ => (s, Action::Nothing),
    }
}

impl SidecarProcess {
    /// A handle for a child not started yet, to be stopped by `strategy`.
    pub fn new(strategy: Strategy) -> (r: SidecarProcess)
        ensures
            r@ == (ProcessState { strategy, phase: Phase::NotStarted, pid: None }),
    {
        SidecarProcess { strategy, phase: Phase::NotStarted, pid: None }
    }

    /// Takes event `e` and returns the action the event loop performs next.
    pub fn handle(&mut self, e: Event) -> (r: Action)
        ensures
            (final(self)@, r) == next(old(self)@, e),
            rank(old(self)@.phase) <= rank(final(self)@.phase),
            final(self)@.strategy == old(self)@.strategy,
    {
        match (self.phase, e) {
            (Phase::NotStarted, Event::Spawned { pid }) => {
                self.phase = Phase::Running;
                self.pid = Some(pid);
                Action::Nothing
            },
            (Phase::NotStarted, Event::CloseRequested) => {
                self.phase = Phase::Terminated;
                Action::Nothing
            },
            (Phase::Running, Event::CloseRequested) => {
                self.phase = Phase::ShuttingDown;
                match self.strategy {
                    Strategy::HttpShutdown => Action::PostShutdown { timeout_ms: SHUTDOWN_REQUEST_TIMEOUT_MS },
                    Strategy::DirectKill => Action::KillAndWait,
                }
            },
            (Phase::Running, Event::Exited) => {
                self.phase = Phase::Terminated;
                Action::Nothing
            },
            (Phase::ShuttingDown, Event::ShutdownRequestFinished { delivered }) => {
                if delivered {
                    Action::AwaitExit { timeout_ms: EXIT_GRACE_MS }
                } else {
                    Action::KillAndWait
                }
            },
            (Phase::ShuttingDown, Event::ExitWaitElapsed) => Action::KillAndWait,
            (Phase::ShuttingDown, Event::Exited) => {
                self.phase = Phase::Terminated;
                Action::Nothing
            },
            _ => Action::Nothing,
        }
    }

    /// Where the child stands.
    pub fn phase(&self) -> (r: Phase)
        ensures
            r == self@.phase,
    {
        self.phase
    }

    /// The child has exited for good.
    pub fn is_terminated(&self) -> (r: bool)
        ensures
            r == (self@.phase == Phase::Terminated),
    {
        self.phase == Phase::Terminated
    }

    /// The child's process id, once it was started.
    pub fn pid(&self) -> (r: Option<u32>)
        ensures
            r == self@.pid,
    {
        self.pid
    }

    /// How the child is stopped.
    pub fn strategy(&self) -> (r: Strategy)
        ensures
            r == self@.strategy,
    {
        self.strategy
    }
}

/// Why the application cannot start.
#[derive(Debug, Clone, PartialEq, Eq)]
pub enum StartupError {
    /// No packaged artifact is named `expected`, the name for this platform.
    NoMatchingArtifact { expected: String },
    /// The artifact was found but could not be started.
    SpawnFailed,
}

/// Some file in `available` is named `name`.
pub open spec fn lists(available: Seq<String>, name: Seq<char>) -> bool {
    exists|i: int| 0 <= i < available.len() && available[i]@ == name
}

/// Finds, among the files in `available`, the artifact for `basename` on the
/// running platform's `triple`.
pub fn resolve_artifact(available: &Vec<String>, basename: &str, triple: &str) -> (r: Result<String, StartupError>)
    ensures
        r is Ok <==> lists(available@, artifact_name(basename@, triple@)),
        r matches Ok(n) ==> n@ == artifact_name(basename@, triple@),
        r matches Err(e) ==> e matches StartupError::NoMatchingArtifact { expected }
            && expected@ == artifact_name(basename@, triple@),
{
    let want = artifact_file_name(basename, triple);
    let mut i: usize = 0;
    while i < available.len()
        invariant
            i <= available@.len(),
            want@ == artifact_name(basename@, triple@),
            forall|k: int| 0 <= k < i ==> available@[k]@ != want@,
        decreases available@.len() - i,
    {
        if available[i] == want {
            return Ok(want);
        }
        i = i + 1;
    }
    Err(StartupError::NoMatchingArtifact { expected: want })
}

/// The supervisor's start: with the child's process id the handle is running;
/// without one, startup fails.
pub fn start_supervision(strategy: Strategy, spawned: Option<u32>) -> (r: Result<SidecarProcess, StartupError>)
    ensures
        r is Ok <==> spawned is Some,
        r matches Ok(p) ==> p@ == (ProcessState { strategy, phase: Phase::Running, pid: spawned }),
        r matches Err(e) ==> e == StartupError::SpawnFailed,
{
    match spawned {
        Some(pid) => {
            let mut p = SidecarProcess::new(strategy);
            let _ = p.handle(Event::Spawned { pid });
            Ok(p)
        },
        None => Err(StartupError::SpawnFailed),
    }
}

/// The whole start of the application: the artifact for `triple` must be
/// among `available` and must then have started (`spawned`). Only `Ok`
/// lets the application show its window.
pub fn startup(
    available: &Vec<String>,
    basename: &str,
    triple: &str,
    strategy: Strategy,
    spawned: Option<u32>,
) -> (r: Result<SidecarProcess, StartupError>)
    ensures
        !lists(available@, artifact_name(basename@, triple@)) ==> (r matches Err(e)
            && e matches StartupError::NoMatchingArtifact { expected }
            && expected@ == artifact_name(basename@, triple@)),
        lists(available@, artifact_name(basename@, triple@)) ==> match spawned {
            Some(pid) => r matches Ok(p) && p@ == (ProcessState { strategy, phase: Phase::Running, pid: Some(pid) }),
            None => r == Err::<SidecarProcess, StartupError>(StartupError::SpawnFailed),
        },
{
    match resolve_artifact(available, basename, triple) {
        Err(e) => Err(e),
        Ok(_) => start_supervision(strategy, spawned),
    }
}

/// Once the child has terminated, every further event, a second close
/// request included, changes nothing and asks for nothing.
pub proof fn lemma_terminated_is_final(s: ProcessState, e: Event)
    requires
        s.phase == Phase::Terminated,
    ensures
        next(s, e) == (s, Action::Nothing),
{
}

/// The phase never moves backwards, whatever the event.
pub proof fn lemma_phase_monotonic(s: ProcessState, e: Event)
    ensures
        rank(s.phase) <= rank(next(s, e).0.phase),
        next(s, e).0.strategy == s.strategy,
{
}

/// A close request in a running state leads to termination within four
/// steps, whatever became of the shutdown request: an undelivered one is
/// followed by the kill at once, a delivered one by a bounded wait and then
/// the kill, and the exit that the kill confirms ends the run.
pub proof fn lemma_close_terminates(s: ProcessState, delivered: bool)
    requires
        s.phase == Phase::Running,
    ensures
        ({
            let (s1, a1) = next(s, Event::CloseRequested);
            let (s2, a2) = next(s1, Event::ShutdownRequestFinished { delivered });
            let (s3, a3) = next(s2, Event::ExitWaitElapsed);
            let (s4, a4) = next(s3, Event::Exited);
            &&& s1.phase == Phase::ShuttingDown
            &&& a1 == first_shutdown_action(s.strategy)
            &&& a2 == after_request(delivered)
            &&& a3 == Action::KillAndWait
            &&& s4.phase == Phase::Terminated
            &&& a4 == Action::Nothing
        }),
{
}

/// A shutdown request that was not delivered (refused, timed out) is
/// followed by the kill at once, and the exit it confirms ends the run.
pub proof fn lemma_undelivered_request_kills(s: ProcessState)
    requires
        s.phase == Phase::Running,
        s.strategy == Strategy::HttpShutdown,
    ensures
        ({
            let (s1, a1) = next(s, Event::CloseRequested);
            let (s2, a2) = next(s1, Event::ShutdownRequestFinished { delivered: false });
            let (s3, a3) = next(s2, Event::Exited);
            &&& a1 == (Action::PostShutdown { timeout_ms: SHUTDOWN_REQUEST_TIMEOUT_MS })
            &&& s2.phase == Phase::ShuttingDown
            &&& a2 == Action::KillAndWait
            &&& s3.phase == Phase::Terminated
            &&& a3 == Action::Nothing
        }),
{
}

/// Under the HTTP strategy, a backend that exits after the shutdown request
/// is never killed: one request is sent, and whether its exit is seen before
/// or after the request returns, termination follows with no kill asked for.
pub proof fn lemma_healthy_shutdown(s: ProcessState)
    requires
        s.phase == Phase::Running,
        s.strategy == Strategy::HttpShutdown,
    ensures
        ({
            let (s1, a1) = next(s, Event::CloseRequested);
            let (s2, a2) = next(s1, Event::ShutdownRequestFinished { delivered: true });
            let (s3, a3) = next(s2, Event::Exited);
            &&& a1 == (Action::PostShutdown { timeout_ms: SHUTDOWN_REQUEST_TIMEOUT_MS })
            &&& a2 == (Action::AwaitExit { timeout_ms: EXIT_GRACE_MS })
            &&& s3.phase == Phase::Terminated
            &&& a3 == Action::Nothing
        }),
        ({
            let (s1, a1) = next(s, Event::CloseRequested);
            let (s2, a2) = next(s1, Event::Exited);
            let (s3, a3) = next(s2, Event::ShutdownRequestFinished { delivered: true });
            &&& a1 == (Action::PostShutdown { timeout_ms: SHUTDOWN_REQUEST_TIMEOUT_MS })
            &&& s2.phase == Phase::Terminated
            &&& a2 == Action::Nothing
            &&& s3.phase == Phase::Terminated
            &&& a3 == Action::Nothing
        }),
{
}

/// A second close request while a shutdown is under way starts nothing new.
pub proof fn lemma_single_shutdown(s: ProcessState)
    requires
        s.phase == Phase::ShuttingDown,
    ensures
        next(s, Event::CloseRequested) == (s, Action::Nothing),
{
}

} // verus!
