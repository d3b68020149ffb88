use suss::server::{HostAction, HostEvent, HostOutcome, HostPhase, HostProtocol};

#[test]
fn hosting_pings_runs_body_and_removes_socket() {
    let mut m = HostProtocol::new(true, false);
    let a = m.step(HostEvent::Start);
    assert_eq!(a, HostAction::ConnectParent);
    let a = m.step(HostEvent::ParentPinged(true));
    assert_eq!(a, HostAction::ShutdownParentPing);
    let a = m.step(HostEvent::PingShutdownDone);
    assert_eq!(a, HostAction::RunBody);
    let a = m.step(HostEvent::BodyFinished(true));
    assert_eq!(
        a,
        HostAction::Finish { outcome: HostOutcome::Body(true), remove_socket: true }
    );
    assert_eq!(m.phase, HostPhase::Finished(HostOutcome::Body(true)));
    assert!(m.socket_released);
    assert_eq!(m.parent_pings, 1);
}

#[test]
fn body_error_still_removes_the_socket() {
    let mut m = HostProtocol::new(true, false);
    m.step(HostEvent::Start);
    m.step(HostEvent::ParentPinged(true));
    m.step(HostEvent::PingShutdownDone);
    let a = m.step(HostEvent::BodyFinished(false));
    assert_eq!(
        a,
        HostAction::Finish { outcome: HostOutcome::Body(false), remove_socket: true }
    );
    assert!(m.socket_released);
}

#[test]
fn unreachable_parent_aborts_when_configured_to_die() {
    let mut m = HostProtocol::new(true, true);
    m.step(HostEvent::Start);
    let a = m.step(HostEvent::ParentPinged(false));
    assert_eq!(
        a,
        HostAction::Finish { outcome: HostOutcome::ParentUnreachable, remove_socket: true }
    );
    assert_eq!(m.phase, HostPhase::Finished(HostOutcome::ParentUnreachable));
    assert!(m.socket_released);
}

#[test]
fn unreachable_parent_is_tolerated_by_default() {
    let mut m = HostProtocol::new(true, false);
    m.step(HostEvent::Start);
    let a = m.step(HostEvent::ParentPinged(false));
    assert_eq!(a, HostAction::RunBody);
    let a = m.step(HostEvent::BodyFinished(true));
    assert_eq!(
        a,
        HostAction::Finish { outcome: HostOutcome::Body(true), remove_socket: true }
    );
    assert!(m.socket_released);
}

#[test]
fn autonomous_hosting_never_pings() {
    let mut m = HostProtocol::new(false, false);
    let a = m.step(HostEvent::Start);
    assert_eq!(a, HostAction::RunBody);
    m.step(HostEvent::BodyFinished(true));
    assert_eq!(m.parent_pings, 0);
    assert!(m.socket_released);
}
