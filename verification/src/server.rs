//! The server hosting protocol: the state machine that runs one hosting
//! call — optionally pinging the parent's ephemeral liveness socket, running
//! the caller's server body, and guaranteeing that the named socket file is
//! released however the call ends.
//!
//! As on the client side, the machine performs no socket work itself: a
//! driver carries out each [`HostAction`] and reports the outcome back as a
//! [`HostEvent`].

use vstd::prelude::*;

verus! {

/// How a hosting call ends.
#[derive(Clone, Copy, PartialEq, Eq, Debug)]
pub enum HostOutcome {
    /// The server body ran; its own result — success or error, which the
    /// driver holds — is handed through unchanged.
    Body(bool),
    /// A liveness path was given, the parent could not be reached, and the
    /// call was configured to refuse to run orphaned.
    ParentUnreachable,
}

/// What the driver reports back to the protocol after performing an action.
#[derive(Clone, Copy, PartialEq, Eq, Debug)]
pub enum HostEvent {
    /// The hosting call begins.
    Start,
    /// Connecting to the parent's liveness socket succeeded or failed.
    ParentPinged(bool),
    /// The shutdown of the ping connection is over; its result is ignored.
    PingShutdownDone,
    /// The server body finished, successfully or not.
    BodyFinished(bool),
}

/// What the driver must do next.
#[derive(Clone, Copy, PartialEq, Eq, Debug)]
pub enum HostAction {
    /// Connect to the parent's ephemeral liveness socket: the connection
    /// itself is the signal that the named socket is bound and ready.
    ConnectParent,
    /// Shut the ping connection down; nothing is read from its result.
    ShutdownParentPing,
    /// Run the caller's server body on the wrapped listener.
    RunBody,
    /// The call is over: release the named socket path — deleting the
    /// socket file, best effort — and hand the outcome to the caller.
    Finish {
        /// How the call ended.
        outcome: HostOutcome,
        /// Whether the named socket file is to be removed; the protocol
        /// never finishes without asking for it.
        remove_socket: bool,
    },
}

/// Where the hosting call stands between two events.
#[derive(Clone, Copy, PartialEq, Eq, Debug)]
pub enum HostPhase {
    /// Created, not yet started.
    Idle,
    /// The ping of the parent's liveness socket is under way.
    PingingParent,
    /// The ping connection is being shut down.
    ShuttingDownPing,
    /// The server body is running.
    RunningBody,
    /// The call is over, with this outcome.
    Finished(HostOutcome),
}

/// The state of one hosting call: its phase, its configuration, and what it
/// has asked of the driver so far.
#[derive(Clone, Copy, PartialEq, Eq, Debug)]
pub struct HostProtocol {
    /// Where the call stands.
    pub phase: HostPhase,
    /// Whether a parent liveness path was handed to the call.
    pub has_liveness_path: bool,
    /// Whether an unreachable parent aborts the call instead of being
    /// logged and ignored.
    pub die_on_parent_failure: bool,
    /// How many times the protocol has asked to ping the parent.
    pub parent_pings: u64,
    /// Whether the named socket path has been released.
    pub socket_released: bool,
}

impl HostProtocol {
    /// The state of a freshly created hosting call.
    pub open spec fn initial(has_liveness_path: bool, die_on_parent_failure: bool) -> HostProtocol {
        HostProtocol {
            phase: HostPhase::Idle,
            has_liveness_path,
            die_on_parent_failure,
            parent_pings: 0,
            socket_released: false,
        }
    }

    /// Whether `e` is the event the current phase is waiting for.
    pub open spec fn event_allowed(self, e: HostEvent) -> bool {
        match (self.phase, e) {
            (HostPhase::Idle, HostEvent::Start) => true,
            (HostPhase::PingingParent, HostEvent::ParentPinged(_)) => true,
            (HostPhase::ShuttingDownPing, HostEvent::PingShutdownDone) => true,
            (HostPhase::RunningBody, HostEvent::BodyFinished(_)) => true,
            _ => false,
        }
    }

    /// The transition the protocol takes on `e`: the state after the step,
    /// and the action it hands the driver.
    pub open spec fn step_spec(self, e: HostEvent) -> (HostProtocol, HostAction) {
        match (self.phase, e) {
            (HostPhase::Idle, HostEvent::Start) => if self.has_liveness_path {
                (
                    HostProtocol {
                        phase: HostPhase::PingingParent,
                        parent_pings: (self.parent_pings + 1) as u64,
                        ..self
                    },
                    HostAction::ConnectParent,
                )
            } else {
                (HostProtocol { phase: HostPhase::RunningBody, ..self }, HostAction::RunBody)
            },
            (HostPhase::PingingParent, HostEvent::ParentPinged(ok)) => if ok {
                (
                    HostProtocol { phase: HostPhase::ShuttingDownPing, ..self },
                    HostAction::ShutdownParentPing,
                )
            } else if self.die_on_parent_failure {
                (
                    HostProtocol {
                        phase: HostPhase::Finished(HostOutcome::ParentUnreachable),
                        socket_released: true,
                        ..self
                    },
                    HostAction::Finish {
                        outcome: HostOutcome::ParentUnreachable,
                        remove_socket: true,
                    },
                )
            } else {
                (HostProtocol { phase: HostPhase::RunningBody, ..self }, HostAction::RunBody)
            },
            (HostPhase::ShuttingDownPing, HostEvent::PingShutdownDone) => (
                HostProtocol { phase: HostPhase::RunningBody, ..self },
                HostAction::RunBody,
            ),
            (HostPhase::RunningBody, HostEvent::BodyFinished(ok)) => (
                HostProtocol {
                    phase: HostPhase::Finished(HostOutcome::Body(ok)),
                    socket_released: true,
                    ..self
                },
                HostAction::Finish { outcome: HostOutcome::Body(ok), remove_socket: true },
            ),
            _ => (self, HostAction::RunBody),
        }
    }

    /// Well-formedness of a state: what holds of the ping counter and the
    /// socket path in each phase of any hosting call that started fresh.
    pub open spec fn inv(self) -> bool {
        &&& match self.phase {
            HostPhase::Idle => self.parent_pings == 0 && !self.socket_released,
            HostPhase::PingingParent => self.has_liveness_path && self.parent_pings == 1
                && !self.socket_released,
            HostPhase::ShuttingDownPing => self.has_liveness_path && self.parent_pings == 1
                && !self.socket_released,
            HostPhase::RunningBody => !self.socket_released,
            HostPhase::Finished(_) => self.socket_released,
        }
        &&& self.parent_pings == if self.has_liveness_path && !(self.phase is Idle) {
            1int
        } else {
            0int
        }
    }

    /// Creates the protocol state for one hosting call.
    pub fn new(has_liveness_path: bool, die_on_parent_failure: bool) -> (r: HostProtocol)
        ensures
            r == Self::initial(has_liveness_path, die_on_parent_failure),
    {
        HostProtocol {
            phase: HostPhase::Idle,
            has_liveness_path,
            die_on_parent_failure,
            parent_pings: 0,
            socket_released: false,
        }
    }

    /// Takes the step the protocol prescribes for the event `e`, and hands
    /// back the action the driver must perform next.
    pub fn step(&mut self, e: HostEvent) -> (r: HostAction)
        requires
            old(self).inv(),
            old(self).event_allowed(e),
        ensures
            *final(self) == old(self).step_spec(e).0,
            r == old(self).step_spec(e).1,
            final(self).inv(),
    {
        let s = *self;
        match (s.phase, e) {
            (HostPhase::Idle, HostEvent::Start) => {
                if s.has_liveness_path {
                    self.phase = HostPhase::PingingParent;
                    self.parent_pings = self.parent_pings + 1;
                    HostAction::ConnectParent
                } else {
                    self.phase = HostPhase::RunningBody;
                    HostAction::RunBody
                }
            },
            (HostPhase::PingingParent, HostEvent::ParentPinged(ok)) => {
                if ok {
                    self.phase = HostPhase::ShuttingDownPing;
                    HostAction::ShutdownParentPing
                } else if s.die_on_parent_failure {
                    self.phase = HostPhase::Finished(HostOutcome::ParentUnreachable);
                    self.socket_released = true;
                    HostAction::Finish {
                        outcome: HostOutcome::ParentUnreachable,
                        remove_socket: true,
                    }
                } else {
                    self.phase = HostPhase::RunningBody;
                    HostAction::RunBody
                }
            },
            (HostPhase::ShuttingDownPing, HostEvent::PingShutdownDone) => {
                self.phase = HostPhase::RunningBody;
                HostAction::RunBody
            },
            (HostPhase::RunningBody, HostEvent::BodyFinished(ok)) => {
                self.phase = HostPhase::Finished(HostOutcome::Body(ok));
                self.socket_released = true;
                HostAction::Finish { outcome: HostOutcome::Body(ok), remove_socket: true }
            },
            _ => {
                proof {
                    assert(false);
                }
                HostAction::RunBody
            },
        }
    }
}

/// The state reached by taking the events of `evs` in order from `s`.
pub open spec fn host_run_steps(s: HostProtocol, evs: Seq<HostEvent>) -> HostProtocol
    decreases evs.len(),
{
    if evs.len() == 0 {
        s
    } else {
        host_run_steps(s.step_spec(evs[0]).0, evs.skip(1))
    }
}

/// Whether every event of `evs`, taken in order from `s`, is the one the
/// protocol was waiting for at that point.
pub open spec fn host_valid_run(s: HostProtocol, evs: Seq<HostEvent>) -> bool
    decreases evs.len(),
{
    evs.len() == 0 || (s.event_allowed(evs[0]) && host_valid_run(s.step_spec(evs[0]).0, evs.skip(1)))
}

/// One step from a well-formed state keeps the state well-formed, never
/// changes the call's configuration, and never hands the driver a `Finish`
/// that does not ask for the named socket file's removal.
pub proof fn lemma_host_step_preserves_inv(s: HostProtocol, e: HostEvent)
    requires
        s.inv(),
        s.event_allowed(e),
    ensures
        s.step_spec(e).0.inv(),
        s.step_spec(e).0.has_liveness_path == s.has_liveness_path,
        s.step_spec(e).0.die_on_parent_failure == s.die_on_parent_failure,
        match s.step_spec(e).1 {
            HostAction::Finish { outcome: _, remove_socket } => remove_socket,
            _ => true,
        },
{
}

/// A whole hosting run from a well-formed state ends in a well-formed state
/// with the same configuration.
pub proof fn lemma_host_run_preserves_inv(s: HostProtocol, evs: Seq<HostEvent>)
    requires
        s.inv(),
        host_valid_run(s, evs),
    ensures
        host_run_steps(s, evs).inv(),
        host_run_steps(s, evs).has_liveness_path == s.has_liveness_path,
        host_run_steps(s, evs).die_on_parent_failure == s.die_on_parent_failure,
    decreases evs.len(),
{
    if evs.len() > 0 {
        lemma_host_step_preserves_inv(s, evs[0]);
        lemma_host_run_preserves_inv(s.step_spec(evs[0]).0, evs.skip(1));
    }
}

/// However a hosting call ends — body success, body error, or a refusal to
/// run orphaned — it ends with the named socket path released: the socket
/// file does not outlive the call.
pub proof fn lemma_hosting_always_releases_socket(
    has_liveness_path: bool,
    die_on_parent_failure: bool,
    evs: Seq<HostEvent>,
)
    requires
        host_valid_run(HostProtocol::initial(has_liveness_path, die_on_parent_failure), evs),
        host_run_steps(
            HostProtocol::initial(has_liveness_path, die_on_parent_failure),
            evs,
        ).phase is Finished,
    ensures
        host_run_steps(
            HostProtocol::initial(has_liveness_path, die_on_parent_failure),
            evs,
        ).socket_released,
{
    lemma_host_run_preserves_inv(
        HostProtocol::initial(has_liveness_path, die_on_parent_failure),
        evs,
    );
}

/// The parent liveness ping is attempted exactly once when a liveness path
/// is given and the call has begun, and never otherwise.
pub proof fn lemma_ping_attempted_exactly_once(
    has_liveness_path: bool,
    die_on_parent_failure: bool,
    evs: Seq<HostEvent>,
)
    requires
        host_valid_run(HostProtocol::initial(has_liveness_path, die_on_parent_failure), evs),
    ensures
        host_run_steps(
            HostProtocol::initial(has_liveness_path, die_on_parent_failure),
            evs,
        ).parent_pings <= 1,
        !has_liveness_path ==> host_run_steps(
            HostProtocol::initial(has_liveness_path, die_on_parent_failure),
            evs,
        ).parent_pings == 0,
{
    lemma_host_run_preserves_inv(
        HostProtocol::initial(has_liveness_path, die_on_parent_failure),
        evs,
    );
}

} // verus!
