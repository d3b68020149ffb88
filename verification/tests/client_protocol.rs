use suss::client::{
    ClientAction, ClientEvent, ClientPhase, ClientProtocol, ClientStep, ConnectError,
    DiscoveryOutcome,
};

#[test]
fn running_service_is_used_without_any_launch() {
    let mut m = ClientProtocol::new(2000);
    let step = m.step(ClientEvent::Start);
    assert_eq!(
        step,
        ClientStep { action: ClientAction::TryDiscovery, release_ephemeral: false }
    );
    let step = m.step(ClientEvent::Discovered(DiscoveryOutcome::Connected));
    assert_eq!(
        step,
        ClientStep { action: ClientAction::Finish(Ok(())), release_ephemeral: false }
    );
    assert_eq!(m.phase, ClientPhase::Finished(Ok(())));
    assert_eq!(m.launches, 0);
    assert_eq!(m.liveness_waits, 0);
    assert!(!m.ephemeral_guard);
}

#[test]
fn activation_happy_path_launches_exactly_once() {
    let mut m = ClientProtocol::new(2000);
    m.step(ClientEvent::Start);
    let step = m.step(ClientEvent::Discovered(DiscoveryOutcome::ConnectFailed));
    assert_eq!(step.action, ClientAction::BindEphemeral);
    let step = m.step(ClientEvent::EphemeralBound(true));
    assert_eq!(step.action, ClientAction::LaunchService);
    let step = m.step(ClientEvent::Launched(true));
    assert_eq!(
        step.action,
        ClientAction::AwaitLivenessConnection { timeout_ms: 2000 }
    );
    let step = m.step(ClientEvent::LivenessAccepted);
    assert_eq!(step.action, ClientAction::ShutdownLiveness);
    let step = m.step(ClientEvent::LivenessShutdown(true));
    assert_eq!(
        step,
        ClientStep { action: ClientAction::RunAfterLiveness, release_ephemeral: true }
    );
    let step = m.step(ClientEvent::AfterLiveness(true));
    assert_eq!(step.action, ClientAction::TryDiscovery);
    let step = m.step(ClientEvent::Discovered(DiscoveryOutcome::Connected));
    assert_eq!(step.action, ClientAction::Finish(Ok(())));
    assert_eq!(m.phase, ClientPhase::Finished(Ok(())));
    assert_eq!(m.launches, 1);
    assert_eq!(m.liveness_waits, 1);
    assert_eq!(m.liveness_accepts, 1);
    assert!(!m.ephemeral_guard);
}

#[test]
fn service_declaration_and_start_fail_test() {
    let mut m = ClientProtocol::new(50);
    m.step(ClientEvent::Start);
    m.step(ClientEvent::Discovered(DiscoveryOutcome::ConnectFailed));
    m.step(ClientEvent::EphemeralBound(true));
    let step = m.step(ClientEvent::Launched(false));
    assert!(matches!(m.phase, ClientPhase::Finished(Err(_))));
    assert_eq!(
        step,
        ClientStep {
            action: ClientAction::Finish(Err(ConnectError::LaunchFailed)),
            release_ephemeral: true,
        }
    );
}

#[test]
fn launch_failure_is_a_launch_error_and_leaves_no_ephemeral() {
    let mut m = ClientProtocol::new(2000);
    m.step(ClientEvent::Start);
    m.step(ClientEvent::Discovered(DiscoveryOutcome::ConnectFailed));
    m.step(ClientEvent::EphemeralBound(true));
    assert!(m.ephemeral_guard);
    let step = m.step(ClientEvent::Launched(false));
    assert_eq!(m.phase, ClientPhase::Finished(Err(ConnectError::LaunchFailed)));
    assert_ne!(
        m.phase,
        ClientPhase::Finished(Err(ConnectError::LivenessTimedOut { timeout_ms: 2000 }))
    );
    assert!(step.release_ephemeral);
    assert!(!m.ephemeral_guard);
}

#[test]
fn timeout_error_carries_the_configured_duration() {
    let mut m = ClientProtocol::new(750);
    m.step(ClientEvent::Start);
    m.step(ClientEvent::Discovered(DiscoveryOutcome::ConnectFailed));
    m.step(ClientEvent::EphemeralBound(true));
    let step = m.step(ClientEvent::Launched(true));
    assert_eq!(
        step.action,
        ClientAction::AwaitLivenessConnection { timeout_ms: 750 }
    );
    let step = m.step(ClientEvent::LivenessTimedOut);
    assert_eq!(
        m.phase,
        ClientPhase::Finished(Err(ConnectError::LivenessTimedOut { timeout_ms: 750 }))
    );
    assert!(step.release_ephemeral);
    assert!(!m.ephemeral_guard);
    assert_eq!(m.launches, 1);
}

#[test]
fn two_sequential_connects_launch_once_in_total() {
    let mut first = ClientProtocol::new(2000);
    first.step(ClientEvent::Start);
    first.step(ClientEvent::Discovered(DiscoveryOutcome::ConnectFailed));
    first.step(ClientEvent::EphemeralBound(true));
    first.step(ClientEvent::Launched(true));
    first.step(ClientEvent::LivenessAccepted);
    first.step(ClientEvent::LivenessShutdown(true));
    first.step(ClientEvent::AfterLiveness(true));
    first.step(ClientEvent::Discovered(DiscoveryOutcome::Connected));
    assert_eq!(first.phase, ClientPhase::Finished(Ok(())));

    let mut second = ClientProtocol::new(2000);
    second.step(ClientEvent::Start);
    second.step(ClientEvent::Discovered(DiscoveryOutcome::Connected));
    assert_eq!(second.phase, ClientPhase::Finished(Ok(())));

    assert_eq!(first.launches + second.launches, 1);
}

#[test]
fn wrap_failure_on_first_discovery_is_returned_at_once() {
    let mut m = ClientProtocol::new(2000);
    m.step(ClientEvent::Start);
    let step = m.step(ClientEvent::Discovered(DiscoveryOutcome::WrapFailed));
    assert_eq!(
        step.action,
        ClientAction::Finish(Err(ConnectError::WrapFailed))
    );
    assert_eq!(m.launches, 0);
}

#[test]
fn ephemeral_bind_failure_is_fatal() {
    let mut m = ClientProtocol::new(2000);
    m.step(ClientEvent::Start);
    m.step(ClientEvent::Discovered(DiscoveryOutcome::ConnectFailed));
    let step = m.step(ClientEvent::EphemeralBound(false));
    assert_eq!(
        m.phase,
        ClientPhase::Finished(Err(ConnectError::EphemeralBindFailed))
    );
    assert!(step.release_ephemeral);
    assert_eq!(m.launches, 0);
}

#[test]
fn liveness_shutdown_failure_is_propagated() {
    let mut m = ClientProtocol::new(2000);
    m.step(ClientEvent::Start);
    m.step(ClientEvent::Discovered(DiscoveryOutcome::ConnectFailed));
    m.step(ClientEvent::EphemeralBound(true));
    m.step(ClientEvent::Launched(true));
    m.step(ClientEvent::LivenessAccepted);
    let step = m.step(ClientEvent::LivenessShutdown(false));
    assert_eq!(
        m.phase,
        ClientPhase::Finished(Err(ConnectError::LivenessShutdownFailed))
    );
    assert!(step.release_ephemeral);
}

#[test]
fn after_liveness_failure_is_propagated() {
    let mut m = ClientProtocol::new(2000);
    m.step(ClientEvent::Start);
    m.step(ClientEvent::Discovered(DiscoveryOutcome::ConnectFailed));
    m.step(ClientEvent::EphemeralBound(true));
    m.step(ClientEvent::Launched(true));
    m.step(ClientEvent::LivenessAccepted);
    m.step(ClientEvent::LivenessShutdown(true));
    let step = m.step(ClientEvent::AfterLiveness(false));
    assert_eq!(
        step.action,
        ClientAction::Finish(Err(ConnectError::AfterLivenessFailed))
    );
}

#[test]
fn final_discovery_failures_are_distinguished() {
    let mut m = ClientProtocol::new(2000);
    m.step(ClientEvent::Start);
    m.step(ClientEvent::Discovered(DiscoveryOutcome::ConnectFailed));
    m.step(ClientEvent::EphemeralBound(true));
    m.step(ClientEvent::Launched(true));
    m.step(ClientEvent::LivenessAccepted);
    m.step(ClientEvent::LivenessShutdown(true));
    m.step(ClientEvent::AfterLiveness(true));
    m.step(ClientEvent::Discovered(DiscoveryOutcome::ConnectFailed));
    assert_eq!(
        m.phase,
        ClientPhase::Finished(Err(ConnectError::FinalConnectFailed))
    );

    let mut w = ClientProtocol::new(2000);
    w.step(ClientEvent::Start);
    w.step(ClientEvent::Discovered(DiscoveryOutcome::ConnectFailed));
    w.step(ClientEvent::EphemeralBound(true));
    w.step(ClientEvent::Launched(true));
    w.step(ClientEvent::LivenessAccepted);
    w.step(ClientEvent::LivenessShutdown(true));
    w.step(ClientEvent::AfterLiveness(true));
    w.step(ClientEvent::Discovered(DiscoveryOutcome::WrapFailed));
    assert_eq!(
        w.phase,
        ClientPhase::Finished(Err(ConnectError::FinalWrapFailed))
    );
}
