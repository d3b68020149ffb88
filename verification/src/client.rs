//! The client activation protocol: the state machine that decides, for one
//! `connect` call, whether to use an already-running service or to activate a
//! fresh one, and that owns the timeout, cleanup and single-launch guarantees
//! of that call.
//!
//! The machine never touches a socket itself.  A driver performs each
//! [`ClientAction`] it is handed — attempting the raw connect, binding the
//! ephemeral liveness socket, launching the child process, waiting for the
//! liveness connection — and reports the outcome back as a [`ClientEvent`].
//! Every decision of the protocol is taken here, and is verified for every
//! possible outcome of every step.

use vstd::prelude::*;

verus! {

/// The outcome of one discovery attempt: a raw connect to the named socket
/// followed, on success, by wrapping the stream into the service's client
/// connection.
#[derive(Clone, Copy, PartialEq, Eq, Debug)]
pub enum DiscoveryOutcome {
    /// The raw connect succeeded and the stream was wrapped successfully.
    Connected,
    /// The raw connect itself failed: no service answers at the named socket.
    ConnectFailed,
    /// The raw connect succeeded but converting or wrapping the stream
    /// failed.
    WrapFailed,
}

/// What the driver reports back to the protocol after performing an action.
#[derive(Clone, Copy, PartialEq, Eq, Debug)]
pub enum ClientEvent {
    /// The call begins.
    Start,
    /// A discovery attempt finished with the given outcome.
    Discovered(DiscoveryOutcome),
    /// Binding the ephemeral liveness socket succeeded or failed.
    EphemeralBound(bool),
    /// Launching the service's process succeeded or failed.
    Launched(bool),
    /// The ephemeral liveness socket delivered its one connection.
    LivenessAccepted,
    /// The wait for the liveness connection elapsed without one.
    LivenessTimedOut,
    /// The wait for the liveness connection failed on the listener itself,
    /// before the timeout.
    LivenessAcceptFailed,
    /// Shutting the liveness connection down succeeded or failed.
    LivenessShutdown(bool),
    /// The post-liveness hook succeeded or failed.
    AfterLiveness(bool),
}

/// The failure a `connect` call reports, identifying the step that failed.
/// The driver carries the underlying error value of the failed step; the
/// protocol records which step it was.
#[derive(Clone, Copy, PartialEq, Eq, Debug)]
pub enum ConnectError {
    /// Discovery reached the service but wrapping the stream failed; the
    /// wrap error is surfaced as-is, with no activation attempted.
    WrapFailed,
    /// The ephemeral liveness socket could not be bound; fatal, no retry.
    EphemeralBindFailed,
    /// The service's process could not be launched; fatal, no retry.
    LaunchFailed,
    /// No liveness connection arrived within the configured timeout.  The
    /// error carries that configured duration, in milliseconds.
    LivenessTimedOut { timeout_ms: u64 },
    /// Accepting the liveness connection failed on the listener itself; the
    /// underlying error is surfaced as-is.
    LivenessAcceptFailed,
    /// Shutting the received liveness connection down failed.
    LivenessShutdownFailed,
    /// The post-liveness hook failed; the service itself is already live.
    AfterLivenessFailed,
    /// The raw connect of the final discovery attempt failed even though the
    /// child proved itself live.
    FinalConnectFailed,
    /// The final discovery attempt reached the service but wrapping failed.
    FinalWrapFailed,
}

/// Where the protocol stands between two events.
#[derive(Clone, Copy, PartialEq, Eq, Debug)]
pub enum ClientPhase {
    /// Created, not yet started.
    Idle,
    /// The first discovery attempt is under way.
    Discovering,
    /// The ephemeral liveness socket is being bound.
    BindingEphemeral,
    /// The service's process is being launched.
    Launching,
    /// The wait for the one liveness connection is under way.
    AwaitingLiveness,
    /// The received liveness connection is being shut down.
    ShuttingDownLiveness,
    /// The post-liveness hook is running.
    RunningAfterLiveness,
    /// The final discovery attempt is under way.
    Reconnecting,
    /// The call is over, with this result.
    Finished(Result<(), ConnectError>),
}

/// What the driver must do next.
#[derive(Clone, Copy, PartialEq, Eq, Debug)]
pub enum ClientAction {
    /// Attempt a raw connect to the named socket and, on success, wrap the
    /// stream; report the outcome as a `Discovered` event.
    TryDiscovery,
    /// Draw a fresh ephemeral path, keep it under a guard that deletes the
    /// file when released, and bind a listener on it.
    BindEphemeral,
    /// Launch the service's process, handing it the ephemeral path.
    LaunchService,
    /// Wait for one inbound connection on the ephemeral listener, for at
    /// most this long.
    AwaitLivenessConnection {
        /// How long to wait, in milliseconds.
        timeout_ms: u64,
    },
    /// Shut the received liveness connection down; no data is exchanged.
    ShutdownLiveness,
    /// Run the descriptor's post-liveness hook.
    RunAfterLiveness,
    /// The call is over: hand this result to the caller.
    Finish(Result<(), ConnectError>),
}

/// One step of the protocol: the next action, and whether the ephemeral
/// path guard must be released first (deleting the ephemeral socket file,
/// best effort) because the activation no longer needs it.
#[derive(Clone, Copy, PartialEq, Eq, Debug)]
pub struct ClientStep {
    /// What the driver must do next.
    pub action: ClientAction,
    /// Whether the ephemeral path guard is to be released before acting.
    pub release_ephemeral: bool,
}

/// The state of one `connect` call: its phase, the configured liveness
/// timeout, and counters over the side effects the protocol has asked for.
#[derive(Clone, Copy, PartialEq, Eq, Debug)]
pub struct ClientProtocol {
    /// Where the call stands.
    pub phase: ClientPhase,
    /// The configured liveness timeout, in milliseconds.
    pub timeout_ms: u64,
    /// How many times the protocol has asked for a process launch.
    pub launches: u64,
    /// How many times the protocol has asked to wait for a liveness
    /// connection.
    pub liveness_waits: u64,
    /// How many liveness connections the protocol has consumed.
    pub liveness_accepts: u64,
    /// Whether an ephemeral path guard is currently alive.
    pub ephemeral_guard: bool,
}

impl ClientProtocol {
    /// The state of a freshly created call with the given timeout.
    pub open spec fn initial(timeout_ms: u64) -> ClientProtocol {
        ClientProtocol {
            phase: ClientPhase::Idle,
            timeout_ms,
            launches: 0,
            liveness_waits: 0,
            liveness_accepts: 0,
            ephemeral_guard: false,
        }
    }

    /// Whether `e` is the event the current phase is waiting for.
    pub open spec fn event_allowed(self, e: ClientEvent) -> bool {
        match (self.phase, e) {
            (ClientPhase::Idle, ClientEvent::Start) => true,
            (ClientPhase::Discovering, ClientEvent::Discovered(_)) => true,
            (ClientPhase::BindingEphemeral, ClientEvent::EphemeralBound(_)) => true,
            (ClientPhase::Launching, ClientEvent::Launched(_)) => true,
            (ClientPhase::AwaitingLiveness, ClientEvent::LivenessAccepted) => true,
            (ClientPhase::AwaitingLiveness, ClientEvent::LivenessTimedOut) => true,
            (ClientPhase::AwaitingLiveness, ClientEvent::LivenessAcceptFailed) => true,
            (ClientPhase::ShuttingDownLiveness, ClientEvent::LivenessShutdown(_)) => true,
            (ClientPhase::RunningAfterLiveness, ClientEvent::AfterLiveness(_)) => true,
            (ClientPhase::Reconnecting, ClientEvent::Discovered(_)) => true,
            _ => false,
        }
    }

    /// The transition the protocol takes on `e`: the state after the step,
    /// and what it hands the driver.
    pub open spec fn step_spec(self, e: ClientEvent) -> (ClientProtocol, ClientStep) {
        match (self.phase, e) {
            (ClientPhase::Idle, ClientEvent::Start) => (
                ClientProtocol { phase: ClientPhase::Discovering, ..self },
                ClientStep { action: ClientAction::TryDiscovery, release_ephemeral: false },
            ),
            (ClientPhase::Discovering, ClientEvent::Discovered(outcome)) => match outcome {
                DiscoveryOutcome::Connected => (
                    ClientProtocol { phase: ClientPhase::Finished(Ok(())), ..self },
                    ClientStep { action: ClientAction::Finish(Ok(())), release_ephemeral: false },
                ),
                DiscoveryOutcome::WrapFailed => (
                    ClientProtocol {
                        phase: ClientPhase::Finished(Err(ConnectError::WrapFailed)),
                        ..self
                    },
                    ClientStep {
                        action: ClientAction::Finish(Err(ConnectError::WrapFailed)),
                        release_ephemeral: false,
                    },
                ),
                DiscoveryOutcome::ConnectFailed => (
                    ClientProtocol {
                        phase: ClientPhase::BindingEphemeral,
                        ephemeral_guard: true,
                        ..self
                    },
                    ClientStep { action: ClientAction::BindEphemeral, release_ephemeral: false },
                ),
            },
            (ClientPhase::BindingEphemeral, ClientEvent::EphemeralBound(ok)) => if ok {
                (
                    ClientProtocol {
                        phase: ClientPhase::Launching,
                        launches: (self.launches + 1) as u64,
                        ..self
                    },
                    ClientStep { action: ClientAction::LaunchService, release_ephemeral: false },
                )
            } else {
                (
                    ClientProtocol {
                        phase: ClientPhase::Finished(Err(ConnectError::EphemeralBindFailed)),
                        ephemeral_guard: false,
                        ..self
                    },
                    ClientStep {
                        action: ClientAction::Finish(Err(ConnectError::EphemeralBindFailed)),
                        release_ephemeral: true,
                    },
                )
            },
            (ClientPhase::Launching, ClientEvent::Launched(ok)) => if ok {
                (
                    ClientProtocol {
                        phase: ClientPhase::AwaitingLiveness,
                        liveness_waits: (self.liveness_waits + 1) as u64,
                        ..self
                    },
                    ClientStep {
                        action: ClientAction::AwaitLivenessConnection {
                            timeout_ms: self.timeout_ms,
                        },
                        release_ephemeral: false,
                    },
                )
            } else {
                (
                    ClientProtocol {
                        phase: ClientPhase::Finished(Err(ConnectError::LaunchFailed)),
                        ephemeral_guard: false,
                        ..self
                    },
                    ClientStep {
                        action: ClientAction::Finish(Err(ConnectError::LaunchFailed)),
                        release_ephemeral: true,
                    },
                )
            },
            (ClientPhase::AwaitingLiveness, ClientEvent::LivenessAccepted) => (
                ClientProtocol {
                    phase: ClientPhase::ShuttingDownLiveness,
                    liveness_accepts: (self.liveness_accepts + 1) as u64,
                    ..self
                },
                ClientStep { action: ClientAction::ShutdownLiveness, release_ephemeral: false },
            ),
            (ClientPhase::AwaitingLiveness, ClientEvent::LivenessTimedOut) => (
                ClientProtocol {
                    phase: ClientPhase::Finished(
                        Err(ConnectError::LivenessTimedOut { timeout_ms: self.timeout_ms }),
                    ),
                    ephemeral_guard: false,
                    ..self
                },
                ClientStep {
                    action: ClientAction::Finish(
                        Err(ConnectError::LivenessTimedOut { timeout_ms: self.timeout_ms }),
                    ),
                    release_ephemeral: true,
                },
            ),
            (ClientPhase::AwaitingLiveness, ClientEvent::LivenessAcceptFailed) => (
                ClientProtocol {
                    phase: ClientPhase::Finished(Err(ConnectError::LivenessAcceptFailed)),
                    ephemeral_guard: false,
                    ..self
                },
                ClientStep {
                    action: ClientAction::Finish(Err(ConnectError::LivenessAcceptFailed)),
                    release_ephemeral: true,
                },
            ),
            (ClientPhase::ShuttingDownLiveness, ClientEvent::LivenessShutdown(ok)) => if ok {
                (
                    ClientProtocol {
                        phase: ClientPhase::RunningAfterLiveness,
                        ephemeral_guard: false,
                        ..self
                    },
                    ClientStep {
                        action: ClientAction::RunAfterLiveness,
                        release_ephemeral: true,
                    },
                )
            } else {
                (
                    ClientProtocol {
                        phase: ClientPhase::Finished(Err(ConnectError::LivenessShutdownFailed)),
                        ephemeral_guard: false,
                        ..self
                    },
                    ClientStep {
                        action: ClientAction::Finish(Err(ConnectError::LivenessShutdownFailed)),
                        release_ephemeral: true,
                    },
                )
            },
            (ClientPhase::RunningAfterLiveness, ClientEvent::AfterLiveness(ok)) => if ok {
                (
                    ClientProtocol { phase: ClientPhase::Reconnecting, ..self },
                    ClientStep { action: ClientAction::TryDiscovery, release_ephemeral: false },
                )
            } else {
                (
                    ClientProtocol {
                        phase: ClientPhase::Finished(Err(ConnectError::AfterLivenessFailed)),
                        ..self
                    },
                    ClientStep {
                        action: ClientAction::Finish(Err(ConnectError::AfterLivenessFailed)),
                        release_ephemeral: false,
                    },
                )
            },
            (ClientPhase::Reconnecting, ClientEvent::Discovered(outcome)) => match outcome {
                DiscoveryOutcome::Connected => (
                    ClientProtocol { phase: ClientPhase::Finished(Ok(())), ..self },
                    ClientStep { action: ClientAction::Finish(Ok(())), release_ephemeral: false },
                ),
                DiscoveryOutcome::ConnectFailed => (
                    ClientProtocol {
                        phase: ClientPhase::Finished(Err(ConnectError::FinalConnectFailed)),
                        ..self
                    },
                    ClientStep {
                        action: ClientAction::Finish(Err(ConnectError::FinalConnectFailed)),
                        release_ephemeral: false,
                    },
                ),
                DiscoveryOutcome::WrapFailed => (
                    ClientProtocol {
                        phase: ClientPhase::Finished(Err(ConnectError::FinalWrapFailed)),
                        ..self
                    },
                    ClientStep {
                        action: ClientAction::Finish(Err(ConnectError::FinalWrapFailed)),
                        release_ephemeral: false,
                    },
                ),
            },
            _ => (self, ClientStep { action: ClientAction::TryDiscovery, release_ephemeral: false }),
        }
    }

    /// Well-formedness of a state: what holds of the counters and the
    /// ephemeral guard in each phase of any run that started fresh.
    pub open spec fn inv(self) -> bool {
        &&& match self.phase {
            ClientPhase::Idle => self.launches == 0 && self.liveness_waits == 0
                && self.liveness_accepts == 0 && !self.ephemeral_guard,
            ClientPhase::Discovering => self.launches == 0 && self.liveness_waits == 0
                && self.liveness_accepts == 0 && !self.ephemeral_guard,
            ClientPhase::BindingEphemeral => self.launches == 0 && self.liveness_waits == 0
                && self.liveness_accepts == 0 && self.ephemeral_guard,
            ClientPhase::Launching => self.launches == 1 && self.liveness_waits == 0
                && self.liveness_accepts == 0 && self.ephemeral_guard,
            ClientPhase::AwaitingLiveness => self.launches == 1 && self.liveness_waits == 1
                && self.liveness_accepts == 0 && self.ephemeral_guard,
            ClientPhase::ShuttingDownLiveness => self.launches == 1 && self.liveness_waits == 1
                && self.liveness_accepts == 1 && self.ephemeral_guard,
            ClientPhase::RunningAfterLiveness => self.launches == 1 && self.liveness_waits == 1
                && self.liveness_accepts == 1 && !self.ephemeral_guard,
            ClientPhase::Reconnecting => self.launches == 1 && self.liveness_waits == 1
                && self.liveness_accepts == 1 && !self.ephemeral_guard,
            ClientPhase::Finished(_) => self.launches <= 1 && self.liveness_waits <= 1
                && self.liveness_accepts <= self.liveness_waits && !self.ephemeral_guard,
        }
        &&& match self.phase {
            ClientPhase::Finished(Err(ConnectError::LivenessTimedOut { timeout_ms: m })) => m
                == self.timeout_ms,
            _ => true,
        }
    }

    /// Creates the protocol state for one `connect` call with the given
    /// liveness timeout.
    pub fn new(timeout_ms: u64) -> (r: ClientProtocol)
        ensures
            r == Self::initial(timeout_ms),
    {
        ClientProtocol {
            phase: ClientPhase::Idle,
            timeout_ms,
            launches: 0,
            liveness_waits: 0,
            liveness_accepts: 0,
            ephemeral_guard: false,
        }
    }

    /// Takes the step the protocol prescribes for the event `e`, and hands
    /// back what the driver must do next.
    pub fn step(&mut self, e: ClientEvent) -> (r: ClientStep)
        requires
            old(self).inv(),
            old(self).event_allowed(e),
        ensures
            *final(self) == old(self).step_spec(e).0,
            r == old(self).step_spec(e).1,
            final(self).inv(),
    {
        let s = *self;
        match (s.phase, e) {
            (ClientPhase::Idle, ClientEvent::Start) => {
                self.phase = ClientPhase::Discovering;
                ClientStep { action: ClientAction::TryDiscovery, release_ephemeral: false }
            },
            (ClientPhase::Discovering, ClientEvent::Discovered(outcome)) => match outcome {
                DiscoveryOutcome::Connected => {
                    self.phase = ClientPhase::Finished(Ok(()));
                    ClientStep { action: ClientAction::Finish(Ok(())), release_ephemeral: false }
                },
                DiscoveryOutcome::WrapFailed => {
                    self.phase = ClientPhase::Finished(Err(ConnectError::WrapFailed));
                    ClientStep {
                        action: ClientAction::Finish(Err(ConnectError::WrapFailed)),
                        release_ephemeral: false,
                    }
                },
                DiscoveryOutcome::ConnectFailed => {
                    self.phase = ClientPhase::BindingEphemeral;
                    self.ephemeral_guard = true;
                    ClientStep { action: ClientAction::BindEphemeral, release_ephemeral: false }
                },
            },
            (ClientPhase::BindingEphemeral, ClientEvent::EphemeralBound(ok)) => {
                if ok {
                    self.phase = ClientPhase::Launching;
                    self.launches = self.launches + 1;
                    ClientStep { action: ClientAction::LaunchService, release_ephemeral: false }
                } else {
                    self.phase = ClientPhase::Finished(Err(ConnectError::EphemeralBindFailed));
                    self.ephemeral_guard = false;
                    ClientStep {
                        action: ClientAction::Finish(Err(ConnectError::EphemeralBindFailed)),
                        release_ephemeral: true,
                    }
                }
            },
            (ClientPhase::Launching, ClientEvent::Launched(ok)) => {
                if ok {
                    self.phase = ClientPhase::AwaitingLiveness;
                    self.liveness_waits = self.liveness_waits + 1;
                    ClientStep {
                        action: ClientAction::AwaitLivenessConnection { timeout_ms: s.timeout_ms },
                        release_ephemeral: false,
                    }
                } else {
                    self.phase = ClientPhase::Finished(Err(ConnectError::LaunchFailed));
                    self.ephemeral_guard = false;
                    ClientStep {
                        action: ClientAction::Finish(Err(ConnectError::LaunchFailed)),
                        release_ephemeral: true,
                    }
                }
            },
            (ClientPhase::AwaitingLiveness, ClientEvent::LivenessAccepted) => {
                self.phase = ClientPhase::ShuttingDownLiveness;
                self.liveness_accepts = self.liveness_accepts + 1;
                ClientStep { action: ClientAction::ShutdownLiveness, release_ephemeral: false }
            },
            (ClientPhase::AwaitingLiveness, ClientEvent::LivenessTimedOut) => {
                self.phase = ClientPhase::Finished(
                    Err(ConnectError::LivenessTimedOut { timeout_ms: s.timeout_ms }),
                );
                self.ephemeral_guard = false;
                ClientStep {
                    action: ClientAction::Finish(
                        Err(ConnectError::LivenessTimedOut { timeout_ms: s.timeout_ms }),
                    ),
                    release_ephemeral: true,
                }
            },
            (ClientPhase::AwaitingLiveness, ClientEvent::LivenessAcceptFailed) => {
                self.phase = ClientPhase::Finished(Err(ConnectError::LivenessAcceptFailed));
                self.ephemeral_guard = false;
                ClientStep {
                    action: ClientAction::Finish(Err(ConnectError::LivenessAcceptFailed)),
                    release_ephemeral: true,
                }
            },
            (ClientPhase::ShuttingDownLiveness, ClientEvent::LivenessShutdown(ok)) => {
                if ok {
                    self.phase = ClientPhase::RunningAfterLiveness;
                    self.ephemeral_guard = false;
                    ClientStep { action: ClientAction::RunAfterLiveness, release_ephemeral: true }
                } else {
                    self.phase = ClientPhase::Finished(Err(ConnectError::LivenessShutdownFailed));
                    self.ephemeral_guard = false;
                    ClientStep {
                        action: ClientAction::Finish(Err(ConnectError::LivenessShutdownFailed)),
                        release_ephemeral: true,
                    }
                }
            },
            (ClientPhase::RunningAfterLiveness, ClientEvent::AfterLiveness(ok)) => {
                if ok {
                    self.phase = ClientPhase::Reconnecting;
                    ClientStep { action: ClientAction::TryDiscovery, release_ephemeral: false }
                } else {
                    self.phase = ClientPhase::Finished(Err(ConnectError::AfterLivenessFailed));
                    ClientStep {
                        action: ClientAction::Finish(Err(ConnectError::AfterLivenessFailed)),
                        release_ephemeral: false,
                    }
                }
            },
            (ClientPhase::Reconnecting, ClientEvent::Discovered(outcome)) => match outcome {
                DiscoveryOutcome::Connected => {
                    self.phase = ClientPhase::Finished(Ok(()));
                    ClientStep { action: ClientAction::Finish(Ok(())), release_ephemeral: false }
                },
                DiscoveryOutcome::ConnectFailed => {
                    self.phase = ClientPhase::Finished(Err(ConnectError::FinalConnectFailed));
                    ClientStep {
                        action: ClientAction::Finish(Err(ConnectError::FinalConnectFailed)),
                        release_ephemeral: false,
                    }
                },
                DiscoveryOutcome::WrapFailed => {
                    self.phase = ClientPhase::Finished(Err(ConnectError::FinalWrapFailed));
                    ClientStep {
                        action: ClientAction::Finish(Err(ConnectError::FinalWrapFailed)),
                        release_ephemeral: false,
                    }
                },
            },
            _ => {
                proof {
                    assert(false);
                }
                ClientStep { action: ClientAction::TryDiscovery, release_ephemeral: false }
            },
        }
    }
}

/// The state reached by taking the events of `evs` in order from `s`.
pub open spec fn run_steps(s: ClientProtocol, evs: Seq<ClientEvent>) -> ClientProtocol
    decreases evs.len(),
{
    if evs.len() == 0 {
        s
    } else {
        run_steps(s.step_spec(evs[0]).0, evs.skip(1))
    }
}

/// Whether every event of `evs`, taken in order from `s`, is the one the
/// protocol was waiting for at that point.
pub open spec fn valid_run(s: ClientProtocol, evs: Seq<ClientEvent>) -> bool
    decreases evs.len(),
{
    evs.len() == 0 || (s.event_allowed(evs[0]) && valid_run(s.step_spec(evs[0]).0, evs.skip(1)))
}

/// One step from a well-formed state keeps the state well-formed and never
/// changes the configured timeout.
pub proof fn lemma_step_preserves_inv(s: ClientProtocol, e: ClientEvent)
    requires
        s.inv(),
        s.event_allowed(e),
    ensures
        s.step_spec(e).0.inv(),
        s.step_spec(e).0.timeout_ms == s.timeout_ms,
{
}

/// A whole run from a well-formed state ends in a well-formed state with the
/// same configured timeout.
pub proof fn lemma_run_preserves_inv(s: ClientProtocol, evs: Seq<ClientEvent>)
    requires
        s.inv(),
        valid_run(s, evs),
    ensures
        run_steps(s, evs).inv(),
        run_steps(s, evs).timeout_ms == s.timeout_ms,
    decreases evs.len(),
{
    if evs.len() > 0 {
        lemma_step_preserves_inv(s, evs[0]);
        lemma_run_preserves_inv(s.step_spec(evs[0]).0, evs.skip(1));
    }
}

/// One `connect` call launches at most one process, however it goes.
pub proof fn lemma_at_most_one_launch(timeout_ms: u64, evs: Seq<ClientEvent>)
    requires
        valid_run(ClientProtocol::initial(timeout_ms), evs),
    ensures
        run_steps(ClientProtocol::initial(timeout_ms), evs).launches <= 1,
{
    lemma_run_preserves_inv(ClientProtocol::initial(timeout_ms), evs);
}

/// One `connect` call waits for a liveness connection at most once, and
/// consumes at most the one connection that wait delivered: whatever else
/// reaches the ephemeral socket is never read.
pub proof fn lemma_liveness_consumed_at_most_once(timeout_ms: u64, evs: Seq<ClientEvent>)
    requires
        valid_run(ClientProtocol::initial(timeout_ms), evs),
    ensures
        run_steps(ClientProtocol::initial(timeout_ms), evs).liveness_waits <= 1,
        run_steps(ClientProtocol::initial(timeout_ms), evs).liveness_accepts <= run_steps(
            ClientProtocol::initial(timeout_ms),
            evs,
        ).liveness_waits,
{
    lemma_run_preserves_inv(ClientProtocol::initial(timeout_ms), evs);
}

/// When the first discovery attempt reaches a running service, the call is
/// over at once with that connection: no process is ever launched, no
/// ephemeral socket is ever involved, and no further event is taken.
pub proof fn lemma_running_service_launches_nothing(timeout_ms: u64, evs: Seq<ClientEvent>)
    requires
        valid_run(ClientProtocol::initial(timeout_ms), evs),
        evs.len() >= 2,
        evs[0] == ClientEvent::Start,
        evs[1] == ClientEvent::Discovered(DiscoveryOutcome::Connected),
    ensures
        evs.len() == 2,
        run_steps(ClientProtocol::initial(timeout_ms), evs).phase == ClientPhase::Finished(
            Ok::<(), ConnectError>(()),
        ),
        run_steps(ClientProtocol::initial(timeout_ms), evs).launches == 0,
        run_steps(ClientProtocol::initial(timeout_ms), evs).liveness_waits == 0,
        !run_steps(ClientProtocol::initial(timeout_ms), evs).ephemeral_guard,
{
    let s0 = ClientProtocol::initial(timeout_ms);
    let s1 = s0.step_spec(evs[0]).0;
    let s2 = s1.step_spec(evs[1]).0;
    assert(valid_run(s1, evs.skip(1)));
    assert(evs.skip(1)[0] == evs[1]);
    assert(valid_run(s2, evs.skip(1).skip(1)));
    assert(s2.phase == ClientPhase::Finished(Ok::<(), ConnectError>(())));
    if evs.skip(1).skip(1).len() > 0 {
        assert(s2.event_allowed(evs.skip(1).skip(1)[0]));
        assert(false);
    }
    assert(evs.len() == 2);
    assert(run_steps(s0, evs) == run_steps(s1, evs.skip(1)));
    assert(run_steps(s1, evs.skip(1)) == run_steps(s2, evs.skip(1).skip(1)));
}

/// States in which the activation part of the protocol — everything after a
/// failed first discovery — is under way or over.
pub open spec fn in_activation(s: ClientProtocol) -> bool {
    match s.phase {
        ClientPhase::BindingEphemeral => s.launches == 0,
        ClientPhase::Launching => s.launches == 1,
        ClientPhase::AwaitingLiveness => s.launches == 1,
        ClientPhase::ShuttingDownLiveness => s.launches == 1,
        ClientPhase::RunningAfterLiveness => s.launches == 1,
        ClientPhase::Reconnecting => s.launches == 1,
        ClientPhase::Finished(r) => r is Ok ==> s.launches == 1,
        _ => false,
    }
}

/// Once activation has begun, a run that ends in success has launched
/// exactly one process.
proof fn lemma_activation_run(s: ClientProtocol, evs: Seq<ClientEvent>)
    requires
        s.inv(),
        in_activation(s),
        valid_run(s, evs),
    ensures
        in_activation(run_steps(s, evs)),
    decreases evs.len(),
{
    if evs.len() > 0 {
        lemma_step_preserves_inv(s, evs[0]);
        lemma_activation_run(s.step_spec(evs[0]).0, evs.skip(1));
    }
}

/// When the first discovery attempt finds no running service, a `connect`
/// call that ends in success has launched exactly one process.
pub proof fn lemma_activation_launches_exactly_once(timeout_ms: u64, evs: Seq<ClientEvent>)
    requires
        valid_run(ClientProtocol::initial(timeout_ms), evs),
        evs.len() >= 2,
        evs[0] == ClientEvent::Start,
        evs[1] == ClientEvent::Discovered(DiscoveryOutcome::ConnectFailed),
        run_steps(ClientProtocol::initial(timeout_ms), evs).phase == ClientPhase::Finished(
            Ok::<(), ConnectError>(()),
        ),
    ensures
        run_steps(ClientProtocol::initial(timeout_ms), evs).launches == 1,
{
    let s0 = ClientProtocol::initial(timeout_ms);
    let s1 = s0.step_spec(evs[0]).0;
    let s2 = s1.step_spec(evs[1]).0;
    assert(valid_run(s1, evs.skip(1)));
    assert(evs.skip(1)[0] == evs[1]);
    assert(valid_run(s2, evs.skip(1).skip(1)));
    assert(s2.phase == ClientPhase::BindingEphemeral && s2.launches == 0);
    lemma_step_preserves_inv(s0, evs[0]);
    lemma_step_preserves_inv(s1, evs[1]);
    lemma_activation_run(s2, evs.skip(1).skip(1));
    assert(run_steps(s0, evs) == run_steps(s1, evs.skip(1)));
    assert(run_steps(s1, evs.skip(1)) == run_steps(s2, evs.skip(1).skip(1)));
}

/// A `connect` call that fails for want of the liveness connection reports
/// the timeout error, and that error carries the configured timeout itself.
pub proof fn lemma_timeout_carries_configured_duration(
    timeout_ms: u64,
    evs: Seq<ClientEvent>,
    reported_ms: u64,
)
    requires
        valid_run(ClientProtocol::initial(timeout_ms), evs),
        run_steps(ClientProtocol::initial(timeout_ms), evs).phase == ClientPhase::Finished(
            Err::<(), ConnectError>(ConnectError::LivenessTimedOut { timeout_ms: reported_ms }),
        ),
    ensures
        reported_ms == timeout_ms,
{
    lemma_run_preserves_inv(ClientProtocol::initial(timeout_ms), evs);
}

/// However a `connect` call ends, it ends with the ephemeral path guard
/// released: no ephemeral socket file outlives the call.
pub proof fn lemma_finished_releases_ephemeral(timeout_ms: u64, evs: Seq<ClientEvent>)
    requires
        valid_run(ClientProtocol::initial(timeout_ms), evs),
        run_steps(ClientProtocol::initial(timeout_ms), evs).phase is Finished,
    ensures
        !run_steps(ClientProtocol::initial(timeout_ms), evs).ephemeral_guard,
{
    lemma_run_preserves_inv(ClientProtocol::initial(timeout_ms), evs);
}

} // verus!
