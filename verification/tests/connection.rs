use telemetry_sampler::connection::{
    connect_start, connect_step, ConnectAction, ConnectError, ConnectEvent, ConnectPolicy,
    ConnectState, ConnectionMode,
};

/// Runs an attempt to its end, with fresh initialisation and the opening of
/// the connection going as given. Returns how it ended and how often fresh
/// initialisation was tried.
fn attempt(
    policy: ConnectPolicy,
    fresh_ok: bool,
    open_ok: bool,
) -> (Result<ConnectionMode, ConnectError>, usize) {
    let (mut state, mut action) = connect_start();
    let mut fresh_tried = 0;
    for _ in 0..10 {
        let event = match action {
            ConnectAction::Start => ConnectEvent::Begin,
            ConnectAction::InitializeFresh => {
                fresh_tried += 1;
                ConnectEvent::Initialized { ok: fresh_ok }
            }
            ConnectAction::Open(_) => ConnectEvent::Opened { ok: open_ok },
            ConnectAction::Done(mode) => return (Ok(mode), fresh_tried),
            ConnectAction::GiveUp(error) => return (Err(error), fresh_tried),
        };
        let next = connect_step(policy, state, event);
        state = next.0;
        action = next.1;
    }
    panic!("the attempt did not end");
}

const DEFAULT: ConnectPolicy = ConnectPolicy { reuse_existing: false, fall_back_to_assumed: true };
const STRICT: ConnectPolicy = ConnectPolicy { reuse_existing: false, fall_back_to_assumed: false };
const REUSE: ConnectPolicy = ConnectPolicy { reuse_existing: true, fall_back_to_assumed: false };

#[test]
fn fresh_initialisation_connects_fresh() {
    assert_eq!(attempt(DEFAULT, true, true), (Ok(ConnectionMode::Fresh), 1));
    assert_eq!(attempt(STRICT, true, true), (Ok(ConnectionMode::Fresh), 1));
}

#[test]
fn failed_fresh_initialisation_falls_back() {
    assert_eq!(attempt(DEFAULT, false, true), (Ok(ConnectionMode::AssumeInitialized), 1));
}

#[test]
fn failed_fresh_initialisation_without_fallback_fails() {
    assert_eq!(attempt(STRICT, false, true), (Err(ConnectError::InitializationFailed), 1));
    assert_eq!(attempt(STRICT, false, false), (Err(ConnectError::InitializationFailed), 1));
}

#[test]
fn connection_that_does_not_open_fails() {
    assert_eq!(attempt(DEFAULT, true, false), (Err(ConnectError::OpenFailed), 1));
    assert_eq!(attempt(DEFAULT, false, false), (Err(ConnectError::OpenFailed), 1));
    assert_eq!(attempt(REUSE, true, false), (Err(ConnectError::OpenFailed), 0));
}

#[test]
fn reuse_twice_never_initialises() {
    assert_eq!(attempt(REUSE, true, true), (Ok(ConnectionMode::AssumeInitialized), 0));
    assert_eq!(attempt(REUSE, true, true), (Ok(ConnectionMode::AssumeInitialized), 0));
    assert_eq!(attempt(REUSE, false, true), (Ok(ConnectionMode::AssumeInitialized), 0));
    let both = ConnectPolicy { reuse_existing: true, fall_back_to_assumed: true };
    assert_eq!(attempt(both, false, true), (Ok(ConnectionMode::AssumeInitialized), 0));
}

#[test]
fn connect_steps_one_by_one() {
    assert_eq!(connect_start(), (ConnectState::Idle, ConnectAction::Start));
    assert_eq!(
        connect_step(DEFAULT, ConnectState::Idle, ConnectEvent::Begin),
        (ConnectState::Initializing, ConnectAction::InitializeFresh)
    );
    assert_eq!(
        connect_step(REUSE, ConnectState::Idle, ConnectEvent::Begin),
        (
            ConnectState::Opening(ConnectionMode::AssumeInitialized),
            ConnectAction::Open(ConnectionMode::AssumeInitialized)
        )
    );
    assert_eq!(
        connect_step(DEFAULT, ConnectState::Initializing, ConnectEvent::Initialized { ok: true }),
        (ConnectState::Opening(ConnectionMode::Fresh), ConnectAction::Open(ConnectionMode::Fresh))
    );
    assert_eq!(
        connect_step(
            DEFAULT,
            ConnectState::Opening(ConnectionMode::Fresh),
            ConnectEvent::Opened { ok: true }
        ),
        (ConnectState::Ready(ConnectionMode::Fresh), ConnectAction::Done(ConnectionMode::Fresh))
    );
}

#[test]
fn unexpected_connect_events_change_nothing() {
    assert_eq!(
        connect_step(DEFAULT, ConnectState::Idle, ConnectEvent::Opened { ok: true }),
        (ConnectState::Idle, ConnectAction::Start)
    );
    assert_eq!(
        connect_step(DEFAULT, ConnectState::Initializing, ConnectEvent::Begin),
        (ConnectState::Initializing, ConnectAction::InitializeFresh)
    );
    let ready = ConnectState::Ready(ConnectionMode::Fresh);
    let failed = ConnectState::Failed(ConnectError::OpenFailed);
    for event in [
        ConnectEvent::Begin,
        ConnectEvent::Initialized { ok: true },
        ConnectEvent::Initialized { ok: false },
        ConnectEvent::Opened { ok: true },
        ConnectEvent::Opened { ok: false },
    ] {
        assert_eq!(
            connect_step(DEFAULT, ready, event),
            (ready, ConnectAction::Done(ConnectionMode::Fresh))
        );
        assert_eq!(
            connect_step(DEFAULT, failed, event),
            (failed, ConnectAction::GiveUp(ConnectError::OpenFailed))
        );
    }
}
