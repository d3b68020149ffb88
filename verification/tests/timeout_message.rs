use suss::timefmt::liveness_timeout_message;

#[test]
fn timeout_message_renders_milliseconds() {
    assert_eq!(
        liveness_timeout_message(50).as_str(),
        "Timed out waiting for service to become live after 50ms"
    );
}

#[test]
fn timeout_message_renders_seconds() {
    assert_eq!(
        liveness_timeout_message(2000).as_str(),
        "Timed out waiting for service to become live after 2s"
    );
}

#[test]
fn timeout_message_renders_zero() {
    assert_eq!(
        liveness_timeout_message(0).as_str(),
        "Timed out waiting for service to become live after 0s"
    );
}

#[test]
fn timeout_message_renders_compound_durations() {
    assert_eq!(
        liveness_timeout_message(61_500).as_str(),
        "Timed out waiting for service to become live after 1m 1s 500ms"
    );
}
