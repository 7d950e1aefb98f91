//! The foreground run of `valqeron-engine run`, as a state machine: lock,
//! open, scheduled work, ordered shutdown.
//!
//! All background work stops before the storage engine is dropped, because
//! dropping it checkpoints and must not race writes in flight. The lock is
//! released last, after the checkpoint.
use crate::error::EngineError;
use vstd::prelude::*;

verus! {

/// How long the shutdown waits for maintenance in flight, in seconds.
pub const DRAIN_TIMEOUT_SECS: u64 = 10;

/// How long work on blocking threads is waited for when the runtime stops.
pub const RUNTIME_SHUTDOWN_TIMEOUT_SECS: u64 = 20;

/// What is to be done next.
#[derive(Clone, Copy, Debug, PartialEq, Eq, Structural)]
pub enum RunStep {
    CreateDataDir,
    AcquireLock,
    OpenDatabase,
    BuildRuntime,
    InstallSignals,
    /// Wait for a tick or a signal.
    Watch,
    /// Wait for the maintenance in flight.
    AwaitMaintenance,
    StopRuntime,
    /// Reclaim the storage engine and drop it, which checkpoints.
    Reclaim,
    ReleaseLock,
    Ended,
}

/// What happened.
#[derive(Clone, Debug)]
pub enum RunEvent {
    Completed,
    Failed(EngineError),
    MaintenanceTick,
    HeartbeatTick,
    /// The maintenance in flight ended, well or not.
    MaintenanceEnded,
    Signal,
    DeadlinePassed,
    /// The storage engine is still in use and cannot be reclaimed.
    StillShared,
}

/// What a tick asks for.
#[derive(Clone, Copy, Debug, PartialEq, Eq, Structural)]
pub enum Duty {
    /// Start one maintenance run on a blocking thread.
    StartMaintenance,
    /// The previous run is still in flight: skip this tick.
    SkipMaintenance,
    /// Say that the engine is alive.
    Heartbeat,
}

/// The state of a run. An error is its message and its exit code.
#[verifier::ext_equal]
pub struct ForegroundState {
    pub step: RunStep,
    pub in_flight: bool,
    pub cause: Option<(Seq<char>, i32)>,
    pub lock: bool,
    pub storage: bool,
}

/// A run that has just begun: nothing is held and no maintenance runs.
pub open spec fn fresh_run() -> ForegroundState {
    ForegroundState {
        step: RunStep::CreateDataDir,
        in_flight: false,
        cause: None,
        lock: false,
        storage: false,
    }
}

/// An error as the state holds it.
pub open spec fn fault_of(e: EngineError) -> (Seq<char>, i32) {
    (e.text(), e.code())
}

/// `state` at another step.
pub open spec fn at_step(state: ForegroundState, step: RunStep) -> ForegroundState {
    ForegroundState { step, ..state }
}

/// The state that follows when a step is completed.
pub open spec fn completed(state: ForegroundState) -> ForegroundState {
    match state.step {
        RunStep::CreateDataDir => at_step(state, RunStep::AcquireLock),
        RunStep::AcquireLock => ForegroundState { step: RunStep::OpenDatabase, lock: true, ..state },
        RunStep::OpenDatabase => ForegroundState {
            step: RunStep::BuildRuntime,
            storage: true,
            ..state
        },
        RunStep::BuildRuntime => at_step(state, RunStep::InstallSignals),
        RunStep::InstallSignals => at_step(state, RunStep::Watch),
        RunStep::StopRuntime => at_step(state, RunStep::Reclaim),
        RunStep::Reclaim => ForegroundState {
            step: RunStep::ReleaseLock,
            storage: false,
            ..state
        },
        RunStep::ReleaseLock => ForegroundState { step: RunStep::Ended, lock: false, ..state },
        RunStep::Watch | RunStep::AwaitMaintenance | RunStep::Ended => state,
    }
}

/// Where a run that fails at a step continues: it lets go of what it holds.
pub open spec fn abandoned(step: RunStep) -> Option<RunStep> {
    match step {
        RunStep::CreateDataDir | RunStep::AcquireLock => Some(RunStep::Ended),
        RunStep::OpenDatabase => Some(RunStep::ReleaseLock),
        RunStep::BuildRuntime => Some(RunStep::Reclaim),
        RunStep::InstallSignals => Some(RunStep::StopRuntime),
        _ => None,
    }
}

/// The state that follows an event. One that the step does not wait for
/// changes nothing.
pub open spec fn stepped(state: ForegroundState, event: RunEvent) -> ForegroundState {
    match event {
        RunEvent::Completed => completed(state),
        RunEvent::Failed(e) => match abandoned(state.step) {
            Some(step) => ForegroundState { step, cause: Some(fault_of(e)), ..state },
            None => state,
        },
        RunEvent::MaintenanceTick => if state.step == RunStep::Watch {
            ForegroundState { in_flight: true, ..state }
        } else {
            state
        },
        RunEvent::HeartbeatTick => state,
        RunEvent::MaintenanceEnded => if state.step == RunStep::AwaitMaintenance {
            ForegroundState { step: RunStep::StopRuntime, in_flight: false, ..state }
        } else if state.step == RunStep::Watch {
            ForegroundState { in_flight: false, ..state }
        } else {
            state
        },
        RunEvent::Signal => if state.step == RunStep::Watch {
            at_step(
                state,
                if state.in_flight {
                    RunStep::AwaitMaintenance
                } else {
                    RunStep::StopRuntime
                },
            )
        } else if state.step == RunStep::AwaitMaintenance {
            ForegroundState {
                step: RunStep::StopRuntime,
                cause: Some(fault_of(EngineError::ForcedShutdown)),
                ..state
            }
        } else {
            state
        },
        RunEvent::DeadlinePassed => if state.step == RunStep::AwaitMaintenance || state.step
            == RunStep::StopRuntime {
            at_step(
                state,
                if state.step == RunStep::AwaitMaintenance {
                    RunStep::StopRuntime
                } else {
                    RunStep::Reclaim
                },
            )
        } else {
            state
        },
        RunEvent::StillShared => if state.step == RunStep::Reclaim {
            completed(state)
        } else {
            state
        },
    }
}

/// What an event asks for at a step.
pub open spec fn duty_of(state: ForegroundState, event: RunEvent) -> Option<Duty> {
    if state.step != RunStep::Watch {
        None
    } else {
        match event {
            RunEvent::MaintenanceTick => Some(
                if state.in_flight {
                    Duty::SkipMaintenance
                } else {
                    Duty::StartMaintenance
                },
            ),
            RunEvent::HeartbeatTick => Some(Duty::Heartbeat),
            _ => None,
        }
    }
}

/// A run in the foreground.
pub struct ForegroundRun {
    step: RunStep,
    in_flight: bool,
    cause: Option<EngineError>,
    lock: bool,
    storage: bool,
}

impl View for ForegroundRun {
    type V = ForegroundState;

    closed spec fn view(&self) -> ForegroundState {
        ForegroundState {
            step: self.step,
            in_flight: self.in_flight,
            cause: match self.cause {
                Some(e) => Some(fault_of(e)),
                None => None,
            },
            lock: self.lock,
            storage: self.storage,
        }
    }
}

impl ForegroundRun {
    /// Begins a run.
    pub fn new() -> (run: ForegroundRun)
        ensures
            run@ == fresh_run(),
            run_wf(run@),
    {
        ForegroundRun {
            step: RunStep::CreateDataDir,
            in_flight: false,
            cause: None,
            lock: false,
            storage: false,
        }
    }

    /// What is to be done next.
    pub fn step(&self) -> (step: RunStep)
        ensures
            step == self@.step,
    {
        self.step
    }

    /// How long the step may take, in seconds.
    pub fn deadline_secs(&self) -> (secs: Option<u64>)
        ensures
            secs == (match self@.step {
                RunStep::AwaitMaintenance => Some(DRAIN_TIMEOUT_SECS),
                RunStep::StopRuntime => Some(RUNTIME_SHUTDOWN_TIMEOUT_SECS),
                _ => None,
            }),
    {
        match self.step {
            RunStep::AwaitMaintenance => Some(DRAIN_TIMEOUT_SECS),
            RunStep::StopRuntime => Some(RUNTIME_SHUTDOWN_TIMEOUT_SECS),
            _ => None,
        }
    }

    fn complete(&mut self)
        ensures
            final(self)@ == completed(old(self)@),
    {
        match self.step {
            RunStep::CreateDataDir => {
                self.step = RunStep::AcquireLock;
            },
            RunStep::AcquireLock => {
                self.lock = true;
                self.step = RunStep::OpenDatabase;
            },
            RunStep::OpenDatabase => {
                self.storage = true;
                self.step = RunStep::BuildRuntime;
            },
            RunStep::BuildRuntime => {
                self.step = RunStep::InstallSignals;
            },
            RunStep::InstallSignals => {
                self.step = RunStep::Watch;
            },
            RunStep::StopRuntime => {
                self.step = RunStep::Reclaim;
            },
            RunStep::Reclaim => {
                self.storage = false;
                self.step = RunStep::ReleaseLock;
            },
            RunStep::ReleaseLock => {
                self.lock = false;
                self.step = RunStep::Ended;
            },
            RunStep::Watch | RunStep::AwaitMaintenance | RunStep::Ended => {},
        }
    }

    /// Takes an event, moves on, and says what a tick asks for.
    pub fn handle(&mut self, event: RunEvent) -> (duty: Option<Duty>)
        ensures
            final(self)@ == stepped(old(self)@, event),
            duty == duty_of(old(self)@, event),
    {
        match event {
            RunEvent::Completed => {
                self.complete();
                None
            },
            RunEvent::Failed(e) => {
                let onwards = match self.step {
                    RunStep::CreateDataDir | RunStep::AcquireLock => Some(RunStep::Ended),
                    RunStep::OpenDatabase => Some(RunStep::ReleaseLock),
                    RunStep::BuildRuntime => Some(RunStep::Reclaim),
                    RunStep::InstallSignals => Some(RunStep::StopRuntime),
                    _ => None,
                };
                if let Some(step) = onwards {
                    self.cause = Some(e);
                    self.step = step;
                }
                None
            },
            RunEvent::MaintenanceTick => match self.step {
                RunStep::Watch => if self.in_flight {
                    Some(Duty::SkipMaintenance)
                } else {
                    self.in_flight = true;
                    Some(Duty::StartMaintenance)
                },
                _ => None,
            },
            RunEvent::HeartbeatTick => match self.step {
                RunStep::Watch => Some(Duty::Heartbeat),
                _ => None,
            },
            RunEvent::MaintenanceEnded => {
                match self.step {
                    RunStep::AwaitMaintenance => {
                        self.in_flight = false;
                        self.step = RunStep::StopRuntime;
                    },
                    RunStep::Watch => {
                        self.in_flight = false;
                    },
                    _ => {},
                }
                None
            },
            RunEvent::Signal => {
                match self.step {
                    RunStep::Watch => {
                        self.step = if self.in_flight {
                            RunStep::AwaitMaintenance
                        } else {
                            RunStep::StopRuntime
                        };
                    },
                    RunStep::AwaitMaintenance => {
                        self.cause = Some(EngineError::ForcedShutdown);
                        self.step = RunStep::StopRuntime;
                    },
                    _ => {},
                }
                None
            },
            RunEvent::DeadlinePassed => {
                match self.step {
                    RunStep::AwaitMaintenance => {
                        self.step = RunStep::StopRuntime;
                    },
                    RunStep::StopRuntime => {
                        self.step = RunStep::Reclaim;
                    },
                    _ => {},
                }
                None
            },
            RunEvent::StillShared => {
                match self.step {
                    RunStep::Reclaim => {
                        self.complete();
                    },
                    _ => {},
                }
                None
            },
        }
    }

    /// How the run ended.
    pub fn into_result(self) -> (result: Result<(), EngineError>)
        ensures
            result is Ok <==> self@.cause is None,
            result matches Err(e) ==> self@.cause == Some(fault_of(e)),
    {
        match self.cause {
            Some(e) => Err(e),
            None => Ok(()),
        }
    }
}

/// What holds of a run at every step.
pub open spec fn run_wf(state: ForegroundState) -> bool {
    match state.step {
        RunStep::CreateDataDir | RunStep::AcquireLock => !state.lock && !state.storage
            && state.cause is None,
        RunStep::OpenDatabase => state.lock && !state.storage && state.cause is None,
        RunStep::BuildRuntime | RunStep::InstallSignals | RunStep::Watch => state.lock
            && state.storage && state.cause is None,
        RunStep::AwaitMaintenance => state.lock && state.storage && state.cause is None
            && state.in_flight,
        RunStep::StopRuntime | RunStep::Reclaim => state.lock && state.storage,
        RunStep::ReleaseLock => state.lock && !state.storage,
        RunStep::Ended => !state.lock && !state.storage,
    }
}

// ---------------------------------------------------------------- laws
/// Every event keeps a run well-formed: whenever the database is open the
/// lock is held, and a run that is over holds neither.
pub proof fn law_every_event_keeps_the_run_well_formed(state: ForegroundState, event: RunEvent)
    requires
        run_wf(state),
    ensures
        run_wf(stepped(state, event)),
        state.storage ==> state.lock,
        state.step == RunStep::Ended ==> !state.lock && !state.storage,
{
}

/// Maintenance never overlaps itself: a run is started only when none is in
/// flight, and it is then in flight until it ends.
pub proof fn law_maintenance_never_overlaps(state: ForegroundState, event: RunEvent)
    requires
        run_wf(state),
    ensures
        duty_of(state, event) == Some(Duty::StartMaintenance) ==> !state.in_flight && stepped(
            state,
            event,
        ).in_flight,
        state.in_flight && !stepped(state, event).in_flight ==> event is MaintenanceEnded,
{
}

/// A failed maintenance does not end the run: its end is an event like any
/// other.
pub proof fn law_maintenance_cannot_take_the_run_down(state: ForegroundState)
    requires
        run_wf(state),
        state.step == RunStep::Watch,
    ensures
        stepped(state, RunEvent::MaintenanceEnded).step == RunStep::Watch,
        stepped(state, RunEvent::MaintenanceEnded).cause is None,
{
}

/// A second signal during the drain ends the run with an error.
pub proof fn law_a_second_signal_forces_the_end(state: ForegroundState)
    requires
        run_wf(state),
        state.step == RunStep::AwaitMaintenance,
    ensures
        stepped(state, RunEvent::Signal).step == RunStep::StopRuntime,
        stepped(state, RunEvent::Signal).cause == Some(fault_of(EngineError::ForcedShutdown)),
{
}

/// A run acquires the lock before it opens the database, and starts its work
/// only then; each completed step leads to the next and to no other.
pub proof fn law_a_run_acquires_in_order(state: ForegroundState)
    ensures
        ({
            let next = stepped(state, RunEvent::Completed);
            &&& state.step == RunStep::CreateDataDir ==> next.step == RunStep::AcquireLock
            &&& state.step == RunStep::AcquireLock ==> next.step == RunStep::OpenDatabase
                && next.lock
            &&& state.step == RunStep::OpenDatabase ==> next.step == RunStep::BuildRuntime
                && next.storage
            &&& state.step == RunStep::BuildRuntime ==> next.step == RunStep::InstallSignals
            &&& state.step == RunStep::InstallSignals ==> next.step == RunStep::Watch
            &&& state.step == RunStep::Watch || state.step == RunStep::AwaitMaintenance || state.step
                == RunStep::Ended ==> next == state
            &&& state.step == RunStep::StopRuntime ==> next.step == RunStep::Reclaim && next.storage
                == state.storage && next.lock == state.lock
            &&& state.step == RunStep::Reclaim ==> next.step == RunStep::ReleaseLock
                && !next.storage && next.lock == state.lock
            &&& state.step == RunStep::ReleaseLock ==> next.step == RunStep::Ended && !next.lock
            &&& next.cause == state.cause && next.in_flight == state.in_flight
        }),
{
}

/// A run that fails lets go of exactly what it holds by then, and ends with
/// that error.
pub proof fn law_a_failed_run_lets_go_of_what_it_holds(state: ForegroundState, e: EngineError)
    ensures
        ({
            let next = stepped(state, RunEvent::Failed(e));
            let cause = Some((e.text(), e.code()));
            &&& state.step == RunStep::CreateDataDir || state.step == RunStep::AcquireLock
                ==> next.step == RunStep::Ended && next.cause == cause
            &&& state.step == RunStep::OpenDatabase ==> next.step == RunStep::ReleaseLock
                && next.cause == cause
            &&& state.step == RunStep::BuildRuntime ==> next.step == RunStep::Reclaim && next.cause
                == cause
            &&& state.step == RunStep::InstallSignals ==> next.step == RunStep::StopRuntime
                && next.cause == cause
            &&& state.step == RunStep::Watch ==> next == state
            &&& next.lock == state.lock && next.storage == state.storage
        }),
{
}

/// A tick starts maintenance where none runs and is skipped otherwise; a
/// heartbeat only says that the run is alive; and neither does anything once
/// the run stops.
pub proof fn law_a_tick_asks_for_its_duty(state: ForegroundState)
    ensures
        state.step == RunStep::Watch && !state.in_flight ==> duty_of(
            state,
            RunEvent::MaintenanceTick,
        ) == Some(Duty::StartMaintenance),
        state.step == RunStep::Watch && state.in_flight ==> duty_of(
            state,
            RunEvent::MaintenanceTick,
        ) == Some(Duty::SkipMaintenance),
        state.step == RunStep::Watch ==> duty_of(state, RunEvent::HeartbeatTick) == Some(
            Duty::Heartbeat,
        ) && stepped(state, RunEvent::MaintenanceTick).in_flight,
        stepped(state, RunEvent::HeartbeatTick) == state,
        state.step != RunStep::Watch ==> duty_of(state, RunEvent::MaintenanceTick) is None
            && duty_of(state, RunEvent::HeartbeatTick) is None && stepped(
            state,
            RunEvent::MaintenanceTick,
        ) == state,
        duty_of(state, RunEvent::Signal) is None && duty_of(state, RunEvent::Completed) is None,
{
}

/// A signal waits for the maintenance in flight, and for nothing where none
/// is; a deadline or its end lets the run stop, without an error of its own.
pub proof fn law_a_signal_waits_for_maintenance(state: ForegroundState)
    ensures
        state.step == RunStep::Watch ==> {
            let next = stepped(state, RunEvent::Signal);
            &&& next.step == if state.in_flight {
                RunStep::AwaitMaintenance
            } else {
                RunStep::StopRuntime
            }
            &&& next.cause == state.cause && next.lock == state.lock && next.storage
                == state.storage
        },
        state.step == RunStep::AwaitMaintenance ==> {
            &&& stepped(state, RunEvent::MaintenanceEnded).step == RunStep::StopRuntime
            &&& stepped(state, RunEvent::MaintenanceEnded).cause == state.cause
            &&& stepped(state, RunEvent::DeadlinePassed).step == RunStep::StopRuntime
            &&& stepped(state, RunEvent::DeadlinePassed).cause == state.cause
        },
        state.step == RunStep::StopRuntime ==> stepped(state, RunEvent::DeadlinePassed).step
            == RunStep::Reclaim,
        state.step == RunStep::Reclaim ==> stepped(state, RunEvent::StillShared).step
            == RunStep::ReleaseLock && !stepped(state, RunEvent::StillShared).storage,
        DRAIN_TIMEOUT_SECS == 10 && RUNTIME_SHUTDOWN_TIMEOUT_SECS == 20,
{
}

/// A run begins with nothing held, nothing in flight and no error, by making
/// its directory.
pub proof fn law_a_run_begins_with_nothing_held()
    ensures
        fresh_run().step == RunStep::CreateDataDir,
        !fresh_run().in_flight,
        fresh_run().cause is None,
        !fresh_run().lock,
        !fresh_run().storage,
{
}

/// Maintenance that has ended makes room for the next: its end changes
/// nothing else, and the tick after it starts maintenance again.
pub proof fn law_ended_maintenance_makes_room(state: ForegroundState)
    requires
        state.step == RunStep::Watch,
    ensures
        ({
            let after = stepped(state, RunEvent::MaintenanceEnded);
            &&& !after.in_flight && after.step == RunStep::Watch
            &&& after.cause == state.cause && after.lock == state.lock && after.storage
                == state.storage
            &&& duty_of(after, RunEvent::MaintenanceTick) == Some(Duty::StartMaintenance)
            &&& duty_of(
                stepped(after, RunEvent::MaintenanceTick),
                RunEvent::MaintenanceTick,
            ) == Some(Duty::SkipMaintenance)
        }),
{
}

} // verus!
