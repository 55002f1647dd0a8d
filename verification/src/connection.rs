//! The connection to the instrumentation subsystem: in which mode it is
//! made, and when the attempt fails.
//!
//! The subsystem may be initialised freshly at most once per thread. A host
//! that has initialised it already must be joined instead. The calls
//! themselves are made outside this library: the caller performs the
//! [`ConnectAction`] it is given, reports what happened as a
//! [`ConnectEvent`], and asks [`connect_step`] what to do next.

use vstd::prelude::*;

verus! {

/// How the subsystem context is obtained.
#[derive(Clone, Copy, Debug, PartialEq, Eq, Structural)]
pub enum ConnectionMode {
    /// The subsystem is initialised by this thread.
    Fresh,
    /// The subsystem is taken to be initialised already.
    AssumeInitialized,
}

/// Why no connection was made.
#[derive(Clone, Copy, Debug, PartialEq, Eq, Structural)]
pub enum ConnectError {
    /// Fresh initialisation failed and the policy allows no other mode.
    InitializationFailed,
    /// The subsystem context was obtained, but the connection did not open.
    OpenFailed,
}

/// What the caller asks for.
#[derive(Clone, Copy, Debug, PartialEq, Eq, Structural)]
pub struct ConnectPolicy {
    /// Join a context that is initialised already, and initialise nothing.
    pub reuse_existing: bool,
    /// Where fresh initialisation fails, take the subsystem to be
    /// initialised already.
    pub fall_back_to_assumed: bool,
}

/// Where an attempt to connect stands.
#[derive(Clone, Copy, Debug, PartialEq, Eq, Structural)]
pub enum ConnectState {
    /// Nothing has been done.
    Idle,
    /// Fresh initialisation is under way.
    Initializing,
    /// The connection is being opened in the given mode.
    Opening(ConnectionMode),
    /// The connection stands, made in the given mode.
    Ready(ConnectionMode),
    /// The attempt failed.
    Failed(ConnectError),
}

/// What the caller reports back.
#[derive(Clone, Copy, Debug, PartialEq, Eq, Structural)]
pub enum ConnectEvent {
    /// The attempt begins.
    Begin,
    /// Fresh initialisation ended; `ok` tells whether it succeeded.
    Initialized { ok: bool },
    /// Opening the connection ended; `ok` tells whether it succeeded.
    Opened { ok: bool },
}

/// What the caller does next.
#[derive(Clone, Copy, Debug, PartialEq, Eq, Structural)]
pub enum ConnectAction {
    /// Begin the attempt.
    Start,
    /// Initialise the subsystem freshly.
    InitializeFresh,
    /// Open the connection in the given mode.
    Open(ConnectionMode),
    /// Use the connection.
    Done(ConnectionMode),
    /// Give up with the given error.
    GiveUp(ConnectError),
}

/// The mode in which the connection is opened once fresh initialisation,
/// where it is tried, has ended with `fresh_ok`; `None` where it is not
/// opened at all.
pub open spec fn mode_of(policy: ConnectPolicy, fresh_ok: bool) -> Option<ConnectionMode> {
    if policy.reuse_existing {
        Some(ConnectionMode::AssumeInitialized)
    } else if fresh_ok {
        Some(ConnectionMode::Fresh)
    } else if policy.fall_back_to_assumed {
        Some(ConnectionMode::AssumeInitialized)
    } else {
        None
    }
}

/// How an attempt ends, given whether fresh initialisation and the opening
/// of the connection succeed where they are tried.
pub open spec fn connect_result(policy: ConnectPolicy, fresh_ok: bool, open_ok: bool) -> Result<
    ConnectionMode,
    ConnectError,
> {
    match mode_of(policy, fresh_ok) {
        None => Err(ConnectError::InitializationFailed),
        Some(mode) => if open_ok {
            Ok(mode)
        } else {
            Err(ConnectError::OpenFailed)
        },
    }
}

/// The action that a state is waiting on.
pub open spec fn connect_action(state: ConnectState) -> ConnectAction {
    match state {
        ConnectState::Idle => ConnectAction::Start,
        ConnectState::Initializing => ConnectAction::InitializeFresh,
        ConnectState::Opening(mode) => ConnectAction::Open(mode),
        ConnectState::Ready(mode) => ConnectAction::Done(mode),
        ConnectState::Failed(error) => ConnectAction::GiveUp(error),
    }
}

/// The state that follows `state` on `event`. An event that the state does
/// not wait for leaves it as it is.
pub open spec fn connect_next(policy: ConnectPolicy, state: ConnectState, event: ConnectEvent)
    -> ConnectState {
    match (state, event) {
        (ConnectState::Idle, ConnectEvent::Begin) => if policy.reuse_existing {
            ConnectState::Opening(ConnectionMode::AssumeInitialized)
        } else {
            ConnectState::Initializing
        },
        (ConnectState::Initializing, ConnectEvent::Initialized { ok }) => if ok {
            ConnectState::Opening(ConnectionMode::Fresh)
        } else if policy.fall_back_to_assumed {
            ConnectState::Opening(ConnectionMode::AssumeInitialized)
        } else {
            ConnectState::Failed(ConnectError::InitializationFailed)
        },
        (ConnectState::Opening(mode), ConnectEvent::Opened { ok }) => if ok {
            ConnectState::Ready(mode)
        } else {
            ConnectState::Failed(ConnectError::OpenFailed)
        },
        _ => state,
    }
}

/// The state reached from `state` after a sequence of events.
pub open spec fn connect_state_after(
    policy: ConnectPolicy,
    state: ConnectState,
    events: Seq<ConnectEvent>,
) -> ConnectState
    decreases events.len(),
{
    if events.len() == 0 {
        state
    } else {
        connect_next(policy, connect_state_after(policy, state, events.drop_last()), events.last())
    }
}

/// The state in which an attempt starts, and its first action.
pub fn connect_start() -> (r: (ConnectState, ConnectAction))
    ensures
        r.0 == ConnectState::Idle,
        r.1 == connect_action(r.0),
{
    (ConnectState::Idle, ConnectAction::Start)
}

/// The state that follows `state` on `event`, and the action to perform in
/// it.
pub fn connect_step(policy: ConnectPolicy, state: ConnectState, event: ConnectEvent) -> (r: (
    ConnectState,
    ConnectAction,
))
    ensures
        r.0 == connect_next(policy, state, event),
        r.1 == connect_action(r.0),
{
    let next = match (state, event) {
        (ConnectState::Idle, ConnectEvent::Begin) => {
            if policy.reuse_existing {
                ConnectState::Opening(ConnectionMode::AssumeInitialized)
            } else {
                ConnectState::Initializing
            }
        },
        (ConnectState::Initializing, ConnectEvent::Initialized { ok }) => {
            if ok {
                ConnectState::Opening(ConnectionMode::Fresh)
            } else if policy.fall_back_to_assumed {
                ConnectState::Opening(ConnectionMode::AssumeInitialized)
            } else {
                ConnectState::Failed(ConnectError::InitializationFailed)
            }
        },
        (ConnectState::Opening(mode), ConnectEvent::Opened { ok }) => {
            if ok {
                ConnectState::Ready(mode)
            } else {
                ConnectState::Failed(ConnectError::OpenFailed)
            }
        },
        _ => state,
    };
    let action = match next {
        ConnectState::Idle => ConnectAction::Start,
        ConnectState::Initializing => ConnectAction::InitializeFresh,
        ConnectState::Opening(mode) => ConnectAction::Open(mode),
        ConnectState::Ready(mode) => ConnectAction::Done(mode),
        ConnectState::Failed(error) => ConnectAction::GiveUp(error),
    };
    (next, action)
}

// ----- laws of the connection -----

/// With `reuse_existing`, nothing is ever initialised: whatever is reported,
/// an attempt never comes to wait on fresh initialisation, nor to open or
/// hold a freshly made connection. So asking twice on one thread is as safe
/// as asking once.
pub proof fn law_reuse_never_initializes(policy: ConnectPolicy, events: Seq<ConnectEvent>)
    requires
        policy.reuse_existing,
    ensures
        connect_state_after(policy, ConnectState::Idle, events) != ConnectState::Initializing,
        connect_state_after(policy, ConnectState::Idle, events) != ConnectState::Opening(
            ConnectionMode::Fresh,
        ),
        connect_state_after(policy, ConnectState::Idle, events) != ConnectState::Ready(
            ConnectionMode::Fresh,
        ),
    decreases events.len(),
{
    if events.len() > 0 {
        law_reuse_never_initializes(policy, events.drop_last());
    }
}

/// An attempt that joins an existing context ends as [`connect_result`]
/// says, once the opening of the connection is reported.
pub proof fn law_reuse_outcome(policy: ConnectPolicy, open_ok: bool)
    requires
        policy.reuse_existing,
    ensures
        connect_state_after(
            policy,
            ConnectState::Idle,
            seq![ConnectEvent::Begin, ConnectEvent::Opened { ok: open_ok }],
        ) == match connect_result(policy, false, open_ok) {
            Ok(mode) => ConnectState::Ready(mode),
            Err(error) => ConnectState::Failed(error),
        },
{
    let events = seq![ConnectEvent::Begin, ConnectEvent::Opened { ok: open_ok }];
    reveal_with_fuel(connect_state_after, 3);
    assert(events.drop_last() =~= seq![ConnectEvent::Begin]);
    assert(events.drop_last().drop_last() =~= Seq::<ConnectEvent>::empty());
}

/// An attempt that initialises freshly ends as [`connect_result`] says, once
/// the initialisation and, where it comes to that, the opening of the
/// connection are reported.
pub proof fn law_fresh_outcome(policy: ConnectPolicy, fresh_ok: bool, open_ok: bool)
    requires
        !policy.reuse_existing,
    ensures
        connect_state_after(
            policy,
            ConnectState::Idle,
            seq![
                ConnectEvent::Begin,
                ConnectEvent::Initialized { ok: fresh_ok },
                ConnectEvent::Opened { ok: open_ok },
            ],
        ) == match connect_result(policy, fresh_ok, open_ok) {
            Ok(mode) => ConnectState::Ready(mode),
            Err(error) => ConnectState::Failed(error),
        },
{
    let events = seq![
        ConnectEvent::Begin,
        ConnectEvent::Initialized { ok: fresh_ok },
        ConnectEvent::Opened { ok: open_ok },
    ];
    reveal_with_fuel(connect_state_after, 4);
    assert(events.drop_last() =~= seq![
        ConnectEvent::Begin,
        ConnectEvent::Initialized { ok: fresh_ok },
    ]);
    assert(events.drop_last().drop_last() =~= seq![ConnectEvent::Begin]);
    assert(events.drop_last().drop_last().drop_last() =~= Seq::<ConnectEvent>::empty());
}

/// An attempt that has ended stays as it ended.
pub proof fn law_connect_end_is_final(
    policy: ConnectPolicy,
    state: ConnectState,
    event: ConnectEvent,
)
    requires
        state is Ready || state is Failed,
    ensures
        connect_next(policy, state, event) == state,
{
}

} // verus!
