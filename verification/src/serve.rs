//! The engine's run, from boot to exit, as a state machine.
//!
//! The machine performs nothing itself: it names the step to perform, is
//! told how that ended, and moves on. Boot acquires the lock, the socket
//! directory, the database, the socket and the runtime in that order;
//! shutdown drains the server, then the tasks, then storage; the teardown
//! then releases everything in reverse and the lock last.
use crate::engine::EngineError;
use crate::exit_code;
use crate::lifecycle::{announced, legal, Lifecycle, LifecycleState};
use crate::lockfile::{at_path, write_at_path};
use crate::notify::Notification;
use crate::text;
use vstd::prelude::*;

verus! {

/// How long the shutdown waits for calls, tasks and storage, in seconds.
pub const DRAIN_TIMEOUT_SECS: u64 = 10;

/// How long the tasks are waited for when the server died on its own.
pub const ORPHAN_DRAIN_SECS: u64 = 1;

/// How long work on blocking threads is waited for when the runtime stops.
pub const RUNTIME_SHUTDOWN_TIMEOUT_SECS: u64 = 20;

// ---------------------------------------------------------------- faults
/// What could not be done to the outside world.
#[derive(Clone, Copy, Debug, PartialEq, Eq, Structural)]
pub enum IoFault {
    CreatingDirectory,
    Restricting,
    RemovingStaleSocket,
    BindingSocket,
    SettingNonblocking,
    RegisteringSocket,
    BuildingRuntime,
    InstallingSigterm,
    InstallingSigint,
}

/// What the operator reads of a fault.
pub open spec fn fault_text(fault: IoFault, path: Seq<u8>, cause: Seq<char>) -> Seq<char> {
    match fault {
        IoFault::CreatingDirectory => at_path("creating "@, path, cause),
        IoFault::Restricting => at_path("restricting "@, path, cause),
        IoFault::RemovingStaleSocket => at_path("removing stale socket "@, path, cause),
        IoFault::BindingSocket => at_path("binding socket "@, path, cause),
        IoFault::SettingNonblocking => "setting "@ + text::lossy_text(path) + " nonblocking: "@
            + cause,
        IoFault::RegisteringSocket => "registering socket "@ + text::lossy_text(path)
            + " with the runtime: "@ + cause,
        IoFault::BuildingRuntime => "building tokio runtime: "@ + cause,
        IoFault::InstallingSigterm => "installing SIGTERM handler: "@ + cause,
        IoFault::InstallingSigint => "installing SIGINT handler: "@ + cause,
    }
}

/// A fault as the error that ends the run. `path` is the file that it
/// concerns, where it concerns one.
pub fn io_error(fault: IoFault, path: &Vec<u8>, cause: &str) -> (e: EngineError)
    ensures
        e matches EngineError::Io(m) && m@ == fault_text(fault, path@, cause@),
{
    let message = match fault {
        IoFault::CreatingDirectory => write_at_path("creating ", path, cause),
        IoFault::Restricting => write_at_path("restricting ", path, cause),
        IoFault::RemovingStaleSocket => write_at_path("removing stale socket ", path, cause),
        IoFault::BindingSocket => write_at_path("binding socket ", path, cause),
        IoFault::SettingNonblocking => "setting ".to_owned().concat(
            text::lossy(path).as_str(),
        ).concat(" nonblocking: ").concat(cause),
        IoFault::RegisteringSocket => "registering socket ".to_owned().concat(
            text::lossy(path).as_str(),
        ).concat(" with the runtime: ").concat(cause),
        IoFault::BuildingRuntime => "building tokio runtime: ".to_owned().concat(cause),
        IoFault::InstallingSigterm => "installing SIGTERM handler: ".to_owned().concat(cause),
        IoFault::InstallingSigint => "installing SIGINT handler: ".to_owned().concat(cause),
    };
    EngineError::Io(message)
}

/// How unlinking a leftover socket went.
#[derive(Clone, Debug)]
pub enum Unlinked {
    Removed,
    Absent,
    Failed(String),
}

/// A leftover socket is removed, and its absence is fine: the lock is held,
/// so no live engine serves on it.
pub fn remove_stale_socket(path: &Vec<u8>, unlinked: Unlinked) -> (outcome: Result<
    (),
    EngineError,
>)
    ensures
        outcome is Ok <==> unlinked !is Failed,
        unlinked matches Unlinked::Failed(cause) ==> (outcome matches Err(EngineError::Io(m)) && m@
            == fault_text(IoFault::RemovingStaleSocket, path@, cause@)),
{
    match unlinked {
        Unlinked::Removed => Ok(()),
        Unlinked::Absent => Ok(()),
        Unlinked::Failed(cause) => Err(
            io_error(IoFault::RemovingStaleSocket, path, cause.as_str()),
        ),
    }
}

// ---------------------------------------------------------------- server
/// How the server's task ended.
#[derive(Clone, Debug)]
pub enum ServerExit {
    Clean,
    /// The server ended with an error.
    ServerFailed(String),
    /// The task panicked or was cancelled.
    TaskFailed(String),
}

/// What the operator reads of a server that ended on its own.
pub open spec fn exit_text(exit: ServerExit) -> Seq<char> {
    match exit {
        ServerExit::Clean => "gRPC server exited unexpectedly"@,
        ServerExit::ServerFailed(e) => "gRPC server failed: "@ + e@,
        ServerExit::TaskFailed(e) => "gRPC server task failed: "@ + e@,
    }
}

/// A server that ends on its own ends the run, even when it ended cleanly.
pub fn server_exit_error(exit: ServerExit) -> (e: EngineError)
    ensures
        e matches EngineError::Io(m) && m@ == exit_text(exit),
{
    match exit {
        ServerExit::Clean => EngineError::Io("gRPC server exited unexpectedly".to_owned()),
        ServerExit::ServerFailed(e) => EngineError::Io(
            "gRPC server failed: ".to_owned().concat(e.as_str()),
        ),
        ServerExit::TaskFailed(e) => EngineError::Io(
            "gRPC server task failed: ".to_owned().concat(e.as_str()),
        ),
    }
}

/// How a server that was asked to stop did so; an error is only logged.
pub fn server_join_outcome(exit: ServerExit) -> (outcome: Result<(), String>)
    ensures
        outcome is Ok <==> exit is Clean,
        exit matches ServerExit::ServerFailed(e) ==> (outcome matches Err(m) && m@ == e@),
        exit matches ServerExit::TaskFailed(e) ==> (outcome matches Err(m) && m@ == e@),
{
    match exit {
        ServerExit::Clean => Ok(()),
        ServerExit::ServerFailed(e) => Err(e),
        ServerExit::TaskFailed(e) => Err(e),
    }
}

// ---------------------------------------------------------------- machine
/// What is to be done next.
#[derive(Clone, Copy, Debug, PartialEq, Eq, Structural)]
pub enum Step {
    /// Create the database's directory.
    CreateDataDir,
    /// Acquire the single-instance lock.
    AcquireLock,
    /// Create the socket's directory, restrict it, unlink a leftover socket.
    PrepareSocket,
    /// Open the database; migrations run here.
    OpenDatabase,
    /// Bind the socket and restrict it.
    BindSocket,
    /// Build the runtime.
    BuildRuntime,
    /// Boot failed: drop what was acquired.
    Abandon,
    /// Install the handlers of the two shutdown signals.
    InstallSignals,
    /// Start serving.
    SpawnServer,
    /// Recover, then start the background tasks.
    StartTasks,
    /// Wait for a signal or for the server to end.
    Serve,
    /// Stop accepting calls.
    BeginShutdown,
    /// Wait for the calls in flight.
    AwaitServer,
    /// Give up on the calls in flight.
    AbortServer,
    /// Stop the background tasks and wait for them.
    DrainTasks,
    /// Refuse new storage work.
    CloseStorage,
    /// Wait for the storage work in flight.
    AwaitIdle,
    /// Stop the runtime.
    StopRuntime,
    /// Unlink the socket.
    RemoveSocket,
    /// Reclaim the storage engine and drop it, which checkpoints.
    Reclaim,
    /// Release the lock.
    ReleaseLock,
    /// Everything is over.
    Ended,
}

/// What happened while a step was performed.
#[derive(Clone, Debug)]
pub enum Event {
    Completed,
    Failed(EngineError),
    /// A shutdown signal arrived.
    Signal,
    /// The server's task ended.
    ServerExited(ServerExit),
    /// The step's deadline passed.
    DeadlinePassed,
    /// The storage engine is still in use and cannot be reclaimed.
    StillShared,
}

/// What the run holds.
#[derive(Clone, Copy, Debug, PartialEq, Eq, Structural)]
pub struct Held {
    pub lock: bool,
    pub storage: bool,
    pub socket: bool,
    pub runtime: bool,
}

/// Nothing is held.
pub open spec fn nothing() -> Held {
    Held { lock: false, storage: false, socket: false, runtime: false }
}

/// Everything is held.
pub open spec fn everything() -> Held {
    Held { lock: true, storage: true, socket: true, runtime: true }
}

/// The state of a run. An error is its message and its exit code.
#[verifier::ext_equal]
pub struct RunState {
    pub step: Step,
    pub cause: Option<(Seq<char>, i32)>,
    pub lifecycle: LifecycleState,
    pub told: Seq<Notification>,
    pub held: Held,
}

/// A run that has just begun.
pub open spec fn fresh_run() -> RunState {
    RunState {
        step: Step::CreateDataDir,
        cause: None,
        lifecycle: LifecycleState::Starting,
        told: Seq::empty(),
        held: nothing(),
    }
}

/// An error as the state holds it.
pub open spec fn fault_of(e: EngineError) -> (Seq<char>, i32) {
    (e.text(), e.code())
}

/// `state` after a lifecycle transition; an illegal one changes nothing.
pub open spec fn entering(state: RunState, to: LifecycleState) -> RunState {
    if legal(state.lifecycle, to) {
        RunState {
            lifecycle: to,
            told: match announced(to) {
                Some(n) => state.told.push(n),
                None => state.told,
            },
            ..state
        }
    } else {
        state
    }
}

/// `state` at another step.
pub open spec fn at_step(state: RunState, step: Step) -> RunState {
    RunState { step, ..state }
}

/// `state` at another step for a cause.
pub open spec fn because(state: RunState, step: Step, cause: (Seq<char>, i32)) -> RunState {
    RunState { step, cause: Some(cause), ..state }
}

/// `state` with other holdings.
pub open spec fn holding(state: RunState, held: Held) -> RunState {
    RunState { held, ..state }
}

/// Whether a step belongs to the boot sequence.
pub open spec fn booting(step: Step) -> bool {
    ||| step == Step::CreateDataDir
    ||| step == Step::AcquireLock
    ||| step == Step::PrepareSocket
    ||| step == Step::OpenDatabase
    ||| step == Step::BindSocket
    ||| step == Step::BuildRuntime
}

/// The state that follows when a step is completed.
pub open spec fn completed(state: RunState) -> RunState {
    match state.step {
        Step::CreateDataDir => at_step(state, Step::AcquireLock),
        Step::AcquireLock => holding(
            at_step(state, Step::PrepareSocket),
            Held { lock: true, ..state.held },
        ),
        Step::PrepareSocket => at_step(state, Step::OpenDatabase),
        Step::OpenDatabase => holding(
            at_step(state, Step::BindSocket),
            Held { storage: true, ..state.held },
        ),
        Step::BindSocket => holding(
            at_step(state, Step::BuildRuntime),
            Held { socket: true, ..state.held },
        ),
        Step::BuildRuntime => holding(
            at_step(state, Step::InstallSignals),
            Held { runtime: true, ..state.held },
        ),
        Step::Abandon => entering(
            holding(at_step(state, Step::Ended), nothing()),
            LifecycleState::Failed,
        ),
        Step::InstallSignals => at_step(state, Step::SpawnServer),
        Step::SpawnServer => entering(at_step(state, Step::StartTasks), LifecycleState::Ready),
        Step::StartTasks => at_step(state, Step::Serve),
        Step::BeginShutdown => at_step(state, Step::AwaitServer),
        Step::AbortServer => at_step(state, Step::DrainTasks),
        Step::DrainTasks => at_step(state, Step::CloseStorage),
        Step::CloseStorage => if state.cause is None {
            at_step(state, Step::AwaitIdle)
        } else {
            at_step(state, Step::StopRuntime)
        },
        Step::AwaitIdle => at_step(state, Step::StopRuntime),
        Step::StopRuntime => holding(
            at_step(state, Step::RemoveSocket),
            Held { runtime: false, ..state.held },
        ),
        Step::RemoveSocket => holding(
            at_step(state, Step::Reclaim),
            Held { socket: false, ..state.held },
        ),
        Step::Reclaim => holding(
            at_step(state, Step::ReleaseLock),
            Held { storage: false, ..state.held },
        ),
        Step::ReleaseLock => entering(
            holding(at_step(state, Step::Ended), Held { lock: false, ..state.held }),
            if state.cause is None {
                LifecycleState::Stopped
            } else {
                LifecycleState::Failed
            },
        ),
        Step::Serve | Step::AwaitServer | Step::Ended => state,
    }
}

/// The state that follows an event. One that the step does not wait for
/// changes nothing.
pub open spec fn stepped(state: RunState, event: Event) -> RunState {
    match event {
        Event::Completed => completed(state),
        Event::Failed(e) => if booting(state.step) {
            because(state, Step::Abandon, fault_of(e))
        } else if state.step == Step::InstallSignals || state.step == Step::SpawnServer {
            because(state, Step::StopRuntime, fault_of(e))
        } else {
            state
        },
        Event::Signal => if state.step == Step::Serve {
            entering(at_step(state, Step::BeginShutdown), LifecycleState::Stopping)
        } else if state.step == Step::AwaitServer {
            because(state, Step::CloseStorage, fault_of(EngineError::ForcedShutdown))
        } else {
            state
        },
        Event::ServerExited(exit) => if state.step == Step::Serve {
            entering(
                because(
                    state,
                    Step::DrainTasks,
                    ("i/o error: "@ + exit_text(exit), exit_code::RUNTIME),
                ),
                LifecycleState::Stopping,
            )
        } else if state.step == Step::AwaitServer {
            at_step(state, Step::DrainTasks)
        } else {
            state
        },
        Event::DeadlinePassed => if state.step == Step::AwaitServer {
            at_step(state, Step::AbortServer)
        } else if state.step == Step::DrainTasks || state.step == Step::AwaitIdle || state.step
            == Step::StopRuntime {
            completed(state)
        } else {
            state
        },
        Event::StillShared => if state.step == Step::Reclaim {
            completed(state)
        } else {
            state
        },
    }
}

/// A run of the engine.
pub struct ValqeronEngine {
    lifecycle: Lifecycle,
    step: Step,
    cause: Option<EngineError>,
    held: Held,
}

impl View for ValqeronEngine {
    type V = RunState;

    closed spec fn view(&self) -> RunState {
        RunState {
            step: self.step,
            cause: match self.cause {
                Some(e) => Some(fault_of(e)),
                None => None,
            },
            lifecycle: self.lifecycle.current(),
            told: self.lifecycle.told(),
            held: self.held,
        }
    }
}

impl ValqeronEngine {
    /// Begins a run.
    pub fn new() -> (run: ValqeronEngine)
        ensures
            run@ == fresh_run(),
            run_wf(run@),
    {
        ValqeronEngine {
            lifecycle: Lifecycle::new(),
            step: Step::CreateDataDir,
            cause: None,
            held: Held { lock: false, storage: false, socket: false, runtime: false },
        }
    }

    /// What is to be done next.
    pub fn step(&self) -> (step: Step)
        ensures
            step == self@.step,
    {
        self.step
    }

    /// The phase of the process.
    pub fn state(&self) -> (state: LifecycleState)
        ensures
            state == self@.lifecycle,
    {
        self.lifecycle.state()
    }

    /// What the run holds.
    pub fn held(&self) -> (held: Held)
        ensures
            held == self@.held,
    {
        self.held
    }

    /// What the service manager was told last.
    pub fn last_announced(&self) -> (notification: Option<Notification>)
        ensures
            notification is Some <==> self@.told.len() > 0,
            notification matches Some(n) ==> n == self@.told.last(),
    {
        self.lifecycle.last_announced()
    }

    /// How long the step may take, in seconds; `None` where it may take as
    /// long as it takes.
    pub fn deadline_secs(&self) -> (secs: Option<u64>)
        ensures
            secs == (match self@.step {
                Step::AwaitServer => Some(DRAIN_TIMEOUT_SECS),
                Step::DrainTasks => if self@.cause is None {
                    Some(DRAIN_TIMEOUT_SECS)
                } else {
                    Some(ORPHAN_DRAIN_SECS)
                },
                Step::AwaitIdle => Some(DRAIN_TIMEOUT_SECS),
                Step::StopRuntime => Some(RUNTIME_SHUTDOWN_TIMEOUT_SECS),
                _ => None,
            }),
    {
        match self.step {
            Step::AwaitServer => Some(DRAIN_TIMEOUT_SECS),
            Step::DrainTasks => if self.cause.is_none() {
                Some(DRAIN_TIMEOUT_SECS)
            } else {
                Some(ORPHAN_DRAIN_SECS)
            },
            Step::AwaitIdle => Some(DRAIN_TIMEOUT_SECS),
            Step::StopRuntime => Some(RUNTIME_SHUTDOWN_TIMEOUT_SECS),
            _ => None,
        }
    }

    fn enter(&mut self, to: LifecycleState)
        ensures
            final(self)@ == entering(old(self)@, to),
    {
        let _ = self.lifecycle.transition(to);
    }

    fn complete(&mut self)
        ensures
            final(self)@ == completed(old(self)@),
    {
        match self.step {
            Step::CreateDataDir => {
                self.step = Step::AcquireLock;
            },
            Step::AcquireLock => {
                self.held.lock = true;
                self.step = Step::PrepareSocket;
            },
            Step::PrepareSocket => {
                self.step = Step::OpenDatabase;
            },
            Step::OpenDatabase => {
                self.held.storage = true;
                self.step = Step::BindSocket;
            },
            Step::BindSocket => {
                self.held.socket = true;
                self.step = Step::BuildRuntime;
            },
            Step::BuildRuntime => {
                self.held.runtime = true;
                self.step = Step::InstallSignals;
            },
            Step::Abandon => {
                self.held = Held { lock: false, storage: false, socket: false, runtime: false };
                self.step = Step::Ended;
                self.enter(LifecycleState::Failed);
            },
            Step::InstallSignals => {
                self.step = Step::SpawnServer;
            },
            Step::SpawnServer => {
                self.step = Step::StartTasks;
                self.enter(LifecycleState::Ready);
            },
            Step::StartTasks => {
                self.step = Step::Serve;
            },
            Step::BeginShutdown => {
                self.step = Step::AwaitServer;
            },
            Step::AbortServer => {
                self.step = Step::DrainTasks;
            },
            Step::DrainTasks => {
                self.step = Step::CloseStorage;
            },
            Step::CloseStorage => {
                self.step = if self.cause.is_none() {
                    Step::AwaitIdle
                } else {
                    Step::StopRuntime
                };
            },
            Step::AwaitIdle => {
                self.step = Step::StopRuntime;
            },
            Step::StopRuntime => {
                self.held.runtime = false;
                self.step = Step::RemoveSocket;
            },
            Step::RemoveSocket => {
                self.held.socket = false;
                self.step = Step::Reclaim;
            },
            Step::Reclaim => {
                self.held.storage = false;
                self.step = Step::ReleaseLock;
            },
            Step::ReleaseLock => {
                self.held.lock = false;
                self.step = Step::Ended;
                if self.cause.is_none() {
                    self.enter(LifecycleState::Stopped);
                } else {
                    self.enter(LifecycleState::Failed);
                }
            },
            Step::Serve | Step::AwaitServer | Step::Ended => {},
        }
    }

    /// Takes an event and moves on. One that the step does not wait for
    /// changes nothing.
    pub fn handle(&mut self, event: Event)
        ensures
            final(self)@ == stepped(old(self)@, event),
    {
        match event {
            Event::Completed => {
                self.complete();
            },
            Event::Failed(e) => match self.step {
                Step::CreateDataDir
                | Step::AcquireLock
                | Step::PrepareSocket
                | Step::OpenDatabase
                | Step::BindSocket
                | Step::BuildRuntime => {
                    self.cause = Some(e);
                    self.step = Step::Abandon;
                },
                Step::InstallSignals | Step::SpawnServer => {
                    self.cause = Some(e);
                    self.step = Step::StopRuntime;
                },
                _ => {},
            },
            Event::Signal => match self.step {
                Step::Serve => {
                    self.step = Step::BeginShutdown;
                    self.enter(LifecycleState::Stopping);
                },
                Step::AwaitServer => {
                    self.cause = Some(EngineError::ForcedShutdown);
                    self.step = Step::CloseStorage;
                },
                _ => {},
            },
            Event::ServerExited(exit) => match self.step {
                Step::Serve => {
                    self.cause = Some(server_exit_error(exit));
                    self.step = Step::DrainTasks;
                    self.enter(LifecycleState::Stopping);
                },
                Step::AwaitServer => {
                    self.step = Step::DrainTasks;
                },
                _ => {},
            },
            Event::DeadlinePassed => match self.step {
                Step::AwaitServer => {
                    self.step = Step::AbortServer;
                },
                Step::DrainTasks | Step::AwaitIdle | Step::StopRuntime => {
                    self.complete();
                },
                _ => {},
            },
            Event::StillShared => match self.step {
                Step::Reclaim => {
                    self.complete();
                },
                _ => {},
            },
        }
    }

    /// How the run ended.
    pub fn into_result(self) -> (result: Result<(), EngineError>)
        ensures
            result is Ok <==> self@.cause is None,
            result matches Err(e) ==> self@.cause == Some(fault_of(e)),
    {
        match self.cause {
            Some(e) => Err(e),
            None => Ok(()),
        }
    }
}

// ---------------------------------------------------------------- invariant
/// What is held while a step of boot is performed.
pub open spec fn held_booting(step: Step) -> Held {
    match step {
        Step::CreateDataDir | Step::AcquireLock => nothing(),
        Step::PrepareSocket | Step::OpenDatabase => Held { lock: true, ..nothing() },
        Step::BindSocket => Held { lock: true, storage: true, ..nothing() },
        _ => Held { runtime: false, ..everything() },
    }
}

/// What is held while a step of the teardown is performed.
pub open spec fn held_ending(step: Step) -> Held {
    match step {
        Step::StopRuntime => everything(),
        Step::RemoveSocket => Held { runtime: false, ..everything() },
        Step::Reclaim => Held { lock: true, storage: true, ..nothing() },
        Step::ReleaseLock => Held { lock: true, ..nothing() },
        _ => nothing(),
    }
}

/// Whether a step belongs to the teardown.
pub open spec fn ending(step: Step) -> bool {
    ||| step == Step::StopRuntime
    ||| step == Step::RemoveSocket
    ||| step == Step::Reclaim
    ||| step == Step::ReleaseLock
}

/// Whether a step belongs to the shutdown.
pub open spec fn draining(step: Step) -> bool {
    ||| step == Step::BeginShutdown
    ||| step == Step::AwaitServer
    ||| step == Step::AbortServer
    ||| step == Step::DrainTasks
    ||| step == Step::CloseStorage
    ||| step == Step::AwaitIdle
}

/// What the service manager was told of a run that was ready and then
/// stopped.
pub open spec fn told_all() -> Seq<Notification> {
    seq![Notification::Ready, Notification::Stopping]
}

/// What holds of a run at every step.
pub open spec fn run_wf(state: RunState) -> bool {
    let starting = state.lifecycle == LifecycleState::Starting && state.told
        == Seq::<Notification>::empty();
    let stopping = state.lifecycle == LifecycleState::Stopping && state.told == told_all();
    if booting(state.step) {
        starting && state.cause is None && state.held == held_booting(state.step)
    } else if state.step == Step::Abandon {
        starting && state.cause is Some && !state.held.runtime
    } else if state.step == Step::InstallSignals || state.step == Step::SpawnServer {
        starting && state.cause is None && state.held == everything()
    } else if state.step == Step::StartTasks || state.step == Step::Serve {
        &&& state.lifecycle == LifecycleState::Ready
        &&& state.told == seq![Notification::Ready]
        &&& state.cause is None
        &&& state.held == everything()
    } else if draining(state.step) {
        &&& stopping
        &&& state.held == everything()
        &&& (state.step != Step::DrainTasks && state.step != Step::CloseStorage)
            ==> state.cause is None
    } else if ending(state.step) {
        &&& stopping || (starting && state.cause is Some)
        &&& state.held == held_ending(state.step)
    } else {
        &&& state.held == nothing()
        &&& if state.cause is None {
            state.lifecycle == LifecycleState::Stopped && state.told == told_all()
        } else {
            state.lifecycle == LifecycleState::Failed
        }
    }
}

// ---------------------------------------------------------------- laws
/// Every event keeps a run well-formed.
pub proof fn law_every_event_keeps_the_run_well_formed(state: RunState, event: Event)
    requires
        run_wf(state),
    ensures
        run_wf(stepped(state, event)),
{
    let next = stepped(state, event);
    assert(seq![Notification::Ready].push(Notification::Stopping) =~= told_all());
    assert(Seq::<Notification>::empty().push(Notification::Ready) =~= seq![Notification::Ready]);
}

/// How far along a step is.
pub open spec fn progress(step: Step) -> int {
    match step {
        Step::CreateDataDir => 0,
        Step::AcquireLock => 1,
        Step::PrepareSocket => 2,
        Step::OpenDatabase => 3,
        Step::BindSocket => 4,
        Step::BuildRuntime => 5,
        Step::InstallSignals => 6,
        Step::SpawnServer => 7,
        Step::StartTasks => 8,
        Step::Serve => 9,
        Step::BeginShutdown => 10,
        Step::AwaitServer => 11,
        Step::AbortServer => 12,
        Step::DrainTasks => 13,
        Step::CloseStorage => 14,
        Step::AwaitIdle => 15,
        Step::StopRuntime => 16,
        Step::RemoveSocket => 17,
        Step::Reclaim => 18,
        Step::ReleaseLock => 19,
        Step::Abandon => 20,
        Step::Ended => 21,
    }
}

/// An event moves the run forward or leaves it alone, and nothing lies beyond
/// the end: no step is performed twice.
pub proof fn law_a_run_only_moves_forward(state: RunState, event: Event)
    requires
        run_wf(state),
    ensures
        stepped(state, event) == state || progress(state.step) < progress(
            stepped(state, event).step,
        ),
        progress(state.step) <= progress(Step::Ended),
{
}

/// The lock outlives everything that it guards: from boot to the end of the
/// teardown, whenever the database is open or the socket exists, the lock is
/// held; and it is the last thing that the teardown lets go of.
pub proof fn law_the_lock_is_released_last(state: RunState)
    requires
        run_wf(state),
        state.step != Step::Abandon,
    ensures
        state.held.storage || state.held.socket || state.held.runtime ==> state.held.lock,
        state.step == Step::Reclaim ==> state.held.lock && !state.held.socket
            && !state.held.runtime,
        state.step == Step::ReleaseLock ==> !state.held.storage,
{
}

/// A terminal state means that everything is released.
pub proof fn law_a_terminal_state_holds_nothing(state: RunState)
    requires
        run_wf(state),
        state.lifecycle.terminal(),
    ensures
        state.step == Step::Ended,
        state.held == nothing(),
        state.lifecycle == LifecycleState::Stopped <==> state.cause is None,
{
}

/// Readiness is announced only with the lock held, the database open and
/// the socket bound, and a run that fails before that announces nothing.
pub proof fn law_ready_means_everything_is_acquired(state: RunState, event: Event)
    requires
        run_wf(state),
        state.told == Seq::<Notification>::empty(),
        stepped(state, event).told != state.told,
    ensures
        state.step == Step::SpawnServer,
        stepped(state, event).lifecycle == LifecycleState::Ready,
        stepped(state, event).told == seq![Notification::Ready],
        stepped(state, event).held == everything(),
{
    assert(Seq::<Notification>::empty().push(Notification::Ready) =~= seq![Notification::Ready]);
    assert(seq![Notification::Ready].len() == 1);
    assert(told_all().len() == 2);
}

/// A run ends well only after a signal and a full drain: calls, tasks and
/// storage, in that order.
pub proof fn law_a_clean_end_was_drained(state: RunState, event: Event)
    requires
        run_wf(state),
        stepped(state, event) != state,
        stepped(state, event).cause is None,
    ensures
        match stepped(state, event).step {
            Step::BeginShutdown => state.step == Step::Serve && event is Signal,
            Step::AwaitServer => state.step == Step::BeginShutdown,
            Step::DrainTasks => state.step == Step::AwaitServer || state.step == Step::AbortServer,
            Step::CloseStorage => state.step == Step::DrainTasks,
            Step::AwaitIdle => state.step == Step::CloseStorage,
            Step::StopRuntime => state.step == Step::AwaitIdle && state.told == told_all(),
            _ => true,
        },
{
}

/// A second signal while calls are drained forces the run to a failed end.
pub proof fn law_a_second_signal_forces_the_end(state: RunState)
    requires
        run_wf(state),
        state.step == Step::AwaitServer,
    ensures
        ({
            let closing = stepped(state, Event::Signal);
            &&& closing.step == Step::CloseStorage
            &&& closing.cause == Some(fault_of(EngineError::ForcedShutdown))
            &&& stepped(closing, Event::Completed).step == Step::StopRuntime
            &&& EngineError::ForcedShutdown.code() != 0
        }),
{
}

/// Boot acquires in order: the directory, the lock, the socket's directory,
/// the database, the socket, the runtime, the signals; then it serves, and
/// starts the tasks. Each completed step leads to the next and to no other.
pub proof fn law_boot_acquires_in_order(state: RunState)
    ensures
        ({
            let next = stepped(state, Event::Completed);
            &&& state.step == Step::CreateDataDir ==> next.step == Step::AcquireLock && next.held
                == state.held
            &&& state.step == Step::AcquireLock ==> next.step == Step::PrepareSocket
                && next.held.lock
            &&& state.step == Step::PrepareSocket ==> next.step == Step::OpenDatabase
            &&& state.step == Step::OpenDatabase ==> next.step == Step::BindSocket
                && next.held.storage
            &&& state.step == Step::BindSocket ==> next.step == Step::BuildRuntime
                && next.held.socket
            &&& state.step == Step::BuildRuntime ==> next.step == Step::InstallSignals
                && next.held.runtime
            &&& state.step == Step::InstallSignals ==> next.step == Step::SpawnServer
            &&& state.step == Step::SpawnServer ==> next.step == Step::StartTasks
            &&& state.step == Step::StartTasks ==> next.step == Step::Serve
            &&& state.step == Step::Serve ==> next == state
            &&& next.cause == state.cause
        }),
{
}

/// A run that fails while it boots drops everything and ends as failed, with
/// that error; one that fails once its runtime stands is torn down step by
/// step.
pub proof fn law_a_failed_boot_lets_everything_go(state: RunState, e: EngineError)
    ensures
        ({
            let next = stepped(state, Event::Failed(e));
            let early = state.step == Step::CreateDataDir || state.step == Step::AcquireLock
                || state.step == Step::PrepareSocket || state.step == Step::OpenDatabase
                || state.step == Step::BindSocket || state.step == Step::BuildRuntime;
            let late = state.step == Step::InstallSignals || state.step == Step::SpawnServer;
            &&& early ==> next.step == Step::Abandon && next.cause == Some((e.text(), e.code()))
                && next.held == state.held
            &&& late ==> next.step == Step::StopRuntime && next.cause == Some((e.text(), e.code()))
                && next.held == state.held
            &&& !early && !late ==> next == state
        }),
        state.step == Step::Abandon ==> {
            let next = stepped(state, Event::Completed);
            &&& next.step == Step::Ended
            &&& !next.held.lock && !next.held.storage && !next.held.socket && !next.held.runtime
            &&& next.cause == state.cause
            &&& state.lifecycle == LifecycleState::Starting ==> next.lifecycle
                == LifecycleState::Failed && next.told == state.told
        },
{
}

/// A signal while the engine serves begins the drain: calls first, then
/// tasks, then storage. A deadline that passes gives up on what is waited for
/// and goes on; a failed run does not wait for storage.
pub proof fn law_a_signal_drains_in_order(state: RunState)
    ensures
        state.step == Step::Serve && state.lifecycle == LifecycleState::Ready ==> {
            let next = stepped(state, Event::Signal);
            &&& next.step == Step::BeginShutdown && next.lifecycle == LifecycleState::Stopping
            &&& next.cause == state.cause && next.held == state.held
            &&& next.told == state.told.push(Notification::Stopping)
        },
        state.step == Step::BeginShutdown ==> stepped(state, Event::Completed).step
            == Step::AwaitServer,
        state.step == Step::AwaitServer ==> {
            &&& stepped(state, Event::Completed) == state
            &&& stepped(state, Event::DeadlinePassed).step == Step::AbortServer
            &&& stepped(state, Event::ServerExited(ServerExit::Clean)).step == Step::DrainTasks
            &&& stepped(state, Event::ServerExited(ServerExit::Clean)).cause == state.cause
        },
        state.step == Step::AbortServer ==> stepped(state, Event::Completed).step
            == Step::DrainTasks,
        state.step == Step::DrainTasks ==> stepped(state, Event::Completed).step
            == Step::CloseStorage && stepped(state, Event::DeadlinePassed).step
            == Step::CloseStorage,
        state.step == Step::CloseStorage && state.cause is None ==> stepped(
            state,
            Event::Completed,
        ).step == Step::AwaitIdle,
        state.step == Step::CloseStorage && state.cause is Some ==> stepped(
            state,
            Event::Completed,
        ).step == Step::StopRuntime,
        state.step == Step::AwaitIdle ==> stepped(state, Event::Completed).step == Step::StopRuntime
            && stepped(state, Event::DeadlinePassed).step == Step::StopRuntime,
{
}

/// A server that ends on its own ends the run as failed, also where it ended
/// cleanly; the tasks are drained all the same.
pub proof fn law_a_server_that_ends_ends_the_run(state: RunState, exit: ServerExit)
    requires
        state.step == Step::Serve,
        state.lifecycle == LifecycleState::Ready,
    ensures
        ({
            let next = stepped(state, Event::ServerExited(exit));
            &&& next.step == Step::DrainTasks
            &&& next.lifecycle == LifecycleState::Stopping
            &&& next.held == state.held
            &&& next.cause matches Some(cause) && cause.1 == 1 && cause.0 == "i/o error: "@ + (
            match exit {
                ServerExit::Clean => "gRPC server exited unexpectedly"@,
                ServerExit::ServerFailed(e) => "gRPC server failed: "@ + e@,
                ServerExit::TaskFailed(e) => "gRPC server task failed: "@ + e@,
            })
        }),
{
}

/// The teardown releases in the reverse order, and the lock last; then the
/// run is stopped where nothing went wrong, and failed otherwise.
pub proof fn law_the_teardown_releases_in_reverse(state: RunState)
    ensures
        ({
            let next = stepped(state, Event::Completed);
            &&& state.step == Step::StopRuntime ==> next.step == Step::RemoveSocket
                && !next.held.runtime && next.held.socket == state.held.socket
                && next.held.storage == state.held.storage && next.held.lock == state.held.lock
            &&& state.step == Step::RemoveSocket ==> next.step == Step::Reclaim
                && !next.held.socket && next.held.storage == state.held.storage && next.held.lock
                == state.held.lock
            &&& state.step == Step::Reclaim ==> next.step == Step::ReleaseLock
                && !next.held.storage && next.held.lock == state.held.lock
            &&& state.step == Step::ReleaseLock ==> next.step == Step::Ended && !next.held.lock
            &&& state.step == Step::ReleaseLock && state.lifecycle == LifecycleState::Stopping
                ==> next.lifecycle == if state.cause is None {
                LifecycleState::Stopped
            } else {
                LifecycleState::Failed
            }
            &&& state.step == Step::Ended ==> next == state
            &&& next.cause == state.cause
        }),
        state.step == Step::Reclaim ==> stepped(state, Event::StillShared) == stepped(
            state,
            Event::Completed,
        ),
        state.step == Step::StopRuntime ==> stepped(state, Event::DeadlinePassed) == stepped(
            state,
            Event::Completed,
        ),
{
}

/// An event that a step does not wait for changes nothing.
pub proof fn law_a_stray_event_changes_nothing(state: RunState, event: Event)
    ensures
        event is Signal && state.step != Step::Serve && state.step != Step::AwaitServer
            ==> stepped(state, event) == state,
        event is ServerExited && state.step != Step::Serve && state.step != Step::AwaitServer
            ==> stepped(state, event) == state,
        event is StillShared && state.step != Step::Reclaim ==> stepped(state, event) == state,
        event is DeadlinePassed && state.step != Step::AwaitServer && state.step != Step::DrainTasks
            && state.step != Step::AwaitIdle && state.step != Step::StopRuntime ==> stepped(
            state,
            event,
        ) == state,
{
}

/// Calls and storage are waited for ten seconds, the runtime twenty.
pub proof fn law_drains_are_bounded()
    ensures
        DRAIN_TIMEOUT_SECS == 10,
        ORPHAN_DRAIN_SECS == 1,
        RUNTIME_SHUTDOWN_TIMEOUT_SECS == 20,
{
}

/// What is said of a fault names what was being done, to which file, and why
/// it failed.
pub proof fn law_a_fault_names_its_file_and_cause(path: Seq<u8>, cause: Seq<char>)
    ensures
        ({
            let file = text::lossy_text(path);
            &&& fault_text(IoFault::CreatingDirectory, path, cause) == "creating "@ + file + ": "@
                + cause
            &&& fault_text(IoFault::Restricting, path, cause) == "restricting "@ + file + ": "@
                + cause
            &&& fault_text(IoFault::RemovingStaleSocket, path, cause)
                == "removing stale socket "@ + file + ": "@ + cause
            &&& fault_text(IoFault::BindingSocket, path, cause) == "binding socket "@ + file
                + ": "@ + cause
            &&& fault_text(IoFault::SettingNonblocking, path, cause) == "setting "@ + file
                + " nonblocking: "@ + cause
            &&& fault_text(IoFault::RegisteringSocket, path, cause) == "registering socket "@
                + file + " with the runtime: "@ + cause
            &&& fault_text(IoFault::BuildingRuntime, path, cause) == "building tokio runtime: "@
                + cause
            &&& fault_text(IoFault::InstallingSigterm, path, cause)
                == "installing SIGTERM handler: "@ + cause
            &&& fault_text(IoFault::InstallingSigint, path, cause)
                == "installing SIGINT handler: "@ + cause
        }),
{
}

/// A run begins as starting, with nothing held, nothing told and no error, by
/// making its directory.
pub proof fn law_a_run_begins_with_nothing_held()
    ensures
        fresh_run().step == Step::CreateDataDir,
        fresh_run().cause is None,
        fresh_run().lifecycle == LifecycleState::Starting,
        fresh_run().told.len() == 0,
        !fresh_run().held.lock && !fresh_run().held.storage && !fresh_run().held.socket
            && !fresh_run().held.runtime,
{
}

/// How the server ended is told in words, with its cause where it has one.
pub proof fn law_a_server_exit_is_told_with_its_cause(cause: String)
    ensures
        exit_text(ServerExit::Clean) == "gRPC server exited unexpectedly"@,
        exit_text(ServerExit::ServerFailed(cause)) == "gRPC server failed: "@ + cause@,
        exit_text(ServerExit::TaskFailed(cause)) == "gRPC server task failed: "@ + cause@,
{
}

} // verus!
