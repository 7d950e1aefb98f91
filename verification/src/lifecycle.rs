//! The engine's lifecycle as a finite state machine: one coarse state per
//! phase of the process, the legal transitions as a table, and the service
//! manager's notification at the transition that makes it true.
//!
//! `Starting → Stopping` is absent: signal handlers are installed only after
//! boot. `Ready → Failed` is absent: every failure drains first and so
//! passes through `Stopping`.
use crate::notify::Notification;
use vstd::prelude::*;

verus! {

/// The phase of the process.
#[derive(Clone, Copy, Debug, PartialEq, Eq, Structural)]
pub enum LifecycleState {
    /// Resources are being acquired.
    Starting,
    /// Lock held, database migrated, socket bound, serving.
    Ready,
    /// Draining requests, background tasks and storage.
    Stopping,
    /// Terminal: everything drained, checkpointed and released.
    Stopped,
    /// Terminal: the run ended in an error.
    Failed,
}

impl LifecycleState {
    pub open spec fn name(self) -> Seq<char> {
        match self {
            LifecycleState::Starting => "starting"@,
            LifecycleState::Ready => "ready"@,
            LifecycleState::Stopping => "stopping"@,
            LifecycleState::Stopped => "stopped"@,
            LifecycleState::Failed => "failed"@,
        }
    }

    pub fn as_str(self) -> (name: &'static str)
        ensures
            name@ == self.name(),
    {
        match self {
            LifecycleState::Starting => "starting",
            LifecycleState::Ready => "ready",
            LifecycleState::Stopping => "stopping",
            LifecycleState::Stopped => "stopped",
            LifecycleState::Failed => "failed",
        }
    }

    /// Whether nothing follows.
    pub open spec fn terminal(self) -> bool {
        self == LifecycleState::Stopped || self == LifecycleState::Failed
    }
}

/// The complete set of legal transitions.
pub open spec fn legal(from: LifecycleState, to: LifecycleState) -> bool {
    ||| from == LifecycleState::Starting && to == LifecycleState::Ready
    ||| from == LifecycleState::Starting && to == LifecycleState::Failed
    ||| from == LifecycleState::Ready && to == LifecycleState::Stopping
    ||| from == LifecycleState::Stopping && to == LifecycleState::Stopped
    ||| from == LifecycleState::Stopping && to == LifecycleState::Failed
}

/// Whether a transition is legal.
pub fn is_valid_transition(from: LifecycleState, to: LifecycleState) -> (valid: bool)
    ensures
        valid == legal(from, to),
{
    match (from, to) {
        (LifecycleState::Starting, LifecycleState::Ready) => true,
        (LifecycleState::Starting, LifecycleState::Failed) => true,
        (LifecycleState::Ready, LifecycleState::Stopping) => true,
        (LifecycleState::Stopping, LifecycleState::Stopped) => true,
        (LifecycleState::Stopping, LifecycleState::Failed) => true,
        _ => false,
    }
}

/// A transition the table forbids. The state is left unchanged.
#[derive(Clone, Copy, Debug, PartialEq, Eq, Structural)]
pub struct InvalidTransition {
    pub from: LifecycleState,
    pub to: LifecycleState,
}

impl InvalidTransition {
    pub open spec fn text(self) -> Seq<char> {
        "invalid engine lifecycle transition: "@ + self.from.name() + " -> "@ + self.to.name()
    }

    pub fn message(&self) -> (out: String)
        ensures
            out@ == self.text(),
    {
        let head = "invalid engine lifecycle transition: ".to_owned().concat(self.from.as_str());
        head.concat(" -> ").concat(self.to.as_str())
    }
}

/// What the service manager is told on entering a state.
pub open spec fn announced(to: LifecycleState) -> Option<Notification> {
    match to {
        LifecycleState::Ready => Some(Notification::Ready),
        LifecycleState::Stopping => Some(Notification::Stopping),
        _ => None,
    }
}

/// The single transition authority. Not `Clone`: one owner drives the state.
pub struct Lifecycle {
    state: LifecycleState,
    announced: Vec<Notification>,
}

impl Lifecycle {
    /// The current state.
    pub closed spec fn current(&self) -> LifecycleState {
        self.state
    }

    /// What the service manager has been told, in order.
    pub closed spec fn told(&self) -> Seq<Notification> {
        self.announced@
    }

    pub fn new() -> (lifecycle: Lifecycle)
        ensures
            lifecycle.current() == LifecycleState::Starting,
            lifecycle.told() == Seq::<Notification>::empty(),
    {
        Lifecycle { state: LifecycleState::Starting, announced: Vec::new() }
    }

    pub fn state(&self) -> (state: LifecycleState)
        ensures
            state == self.current(),
    {
        self.state
    }

    /// The most recent notification, if any.
    pub fn last_announced(&self) -> (notification: Option<Notification>)
        ensures
            notification is Some <==> self.told().len() > 0,
            notification matches Some(n) ==> n == self.told().last(),
    {
        if self.announced.len() == 0 {
            None
        } else {
            Some(self.announced[self.announced.len() - 1])
        }
    }

    /// Attempts a transition. A legal one takes effect, is announced, and
    /// yields the state it left; an illegal one changes nothing.
    pub fn transition(&mut self, to: LifecycleState) -> (moved: Result<
        LifecycleState,
        InvalidTransition,
    >)
        ensures
            moved is Ok <==> legal(old(self).current(), to),
            moved matches Ok(from) ==> {
                &&& from == old(self).current()
                &&& final(self).current() == to
                &&& final(self).told() == (match announced(to) {
                    Some(n) => old(self).told().push(n),
                    None => old(self).told(),
                })
            },
            moved matches Err(e) ==> {
                &&& e.from == old(self).current()
                &&& e.to == to
                &&& final(self).current() == old(self).current()
                &&& final(self).told() == old(self).told()
            },
    {
        let from = self.state;
        if !is_valid_transition(from, to) {
            return Err(InvalidTransition { from, to });
        }
        self.state = to;
        match to {
            LifecycleState::Ready => {
                self.announced.push(Notification::Ready);
            },
            LifecycleState::Stopping => {
                self.announced.push(Notification::Stopping);
            },
            LifecycleState::Starting | LifecycleState::Stopped | LifecycleState::Failed => {},
        }
        Ok(from)
    }
}

// ---------------------------------------------------------------- laws
/// Terminal states absorb: nothing leaves them, not even to themselves.
pub proof fn law_terminal_states_absorb(from: LifecycleState, to: LifecycleState)
    requires
        from.terminal(),
    ensures
        !legal(from, to),
{
}

/// How far along a state is.
pub open spec fn phase(state: LifecycleState) -> int {
    match state {
        LifecycleState::Starting => 0,
        LifecycleState::Ready => 1,
        LifecycleState::Stopping => 2,
        LifecycleState::Stopped => 3,
        LifecycleState::Failed => 3,
    }
}

/// Every legal transition moves forward, so no state is entered twice and
/// nothing is announced twice.
pub proof fn law_the_lifecycle_only_moves_forward(from: LifecycleState, to: LifecycleState)
    requires
        legal(from, to),
    ensures
        phase(from) < phase(to),
        forall|other: LifecycleState|
            #![trigger announced(other)]
            announced(to) is Some && announced(other) == announced(to) ==> other == to,
{
}

/// No run fails straight out of ready: whoever was ready drains first.
pub proof fn law_a_failure_once_ready_was_drained(from: LifecycleState)
    requires
        legal(from, LifecycleState::Failed),
    ensures
        from == LifecycleState::Starting || from == LifecycleState::Stopping,
{
}

/// A clean stop is only reached by draining, and draining only from ready.
pub proof fn law_a_clean_stop_was_ready_and_drained(from: LifecycleState, before: LifecycleState)
    requires
        legal(from, LifecycleState::Stopped),
        legal(before, from),
    ensures
        from == LifecycleState::Stopping,
        before == LifecycleState::Ready,
{
}

/// Every phase can be reached and left: from starting to ready or failed,
/// from ready to stopping, from stopping to stopped or failed. Readiness and
/// the stop are announced on entering, and nothing else is.
pub proof fn law_the_phases_follow_each_other(to: LifecycleState)
    ensures
        legal(LifecycleState::Starting, to) <==> to == LifecycleState::Ready || to
            == LifecycleState::Failed,
        legal(LifecycleState::Ready, to) <==> to == LifecycleState::Stopping,
        legal(LifecycleState::Stopping, to) <==> to == LifecycleState::Stopped || to
            == LifecycleState::Failed,
        announced(to) == Some(Notification::Ready) <==> to == LifecycleState::Ready,
        announced(to) == Some(Notification::Stopping) <==> to == LifecycleState::Stopping,
        announced(to) != Some(Notification::Watchdog),
        to.terminal() <==> to == LifecycleState::Stopped || to == LifecycleState::Failed,
{
}

} // verus!
