//! The reconnect supervisor: the state machine that owns the session
//! lifecycle. It connects, runs one session, tears it down on any
//! terminal event, waits the configured interval, and reconnects —
//! indefinitely, until a stop is requested.
use vstd::prelude::*;
use crate::config::RemoteControlConfig;

verus! {

/// Where the supervisor stands: no transport and about to try
/// (`Idle`), a connect attempt in flight (`Connecting`), a live session
/// (`Active`), session torn down and waiting out the reconnect interval
/// (`Draining`), or stopped for good (`Stopped`).
#[derive(Debug, Clone, Copy, PartialEq, Eq, Structural)]
pub enum SupervisorState {
    Idle,
    Connecting,
    Active,
    Draining,
    Stopped,
}

/// What the surrounding runtime reports to the supervisor.
#[derive(Debug, Clone, Copy, PartialEq, Eq, Structural)]
pub enum SupervisorEvent {
    /// The supervisor has the turn and may act.
    Proceed,
    ConnectSucceeded,
    ConnectFailed,
    /// The session ended: close frame, read error, or write failure.
    SessionEnded,
    /// The reconnect interval has fully elapsed.
    WaitElapsed,
    StopRequested,
}

/// What the supervisor asks the runtime to do next.
#[derive(Debug, Clone, Copy, PartialEq, Eq, Structural)]
pub enum SupervisorAction {
    /// Try to connect to the configured server.
    AttemptConnect,
    /// Open the session: submit the hello frame first, then spawn the
    /// writer and the heartbeat at the configured interval, then read.
    StartSession,
    /// Cancel the heartbeat and writer tasks at once, drop the
    /// transport, then wait the reconnect interval.
    TearDownSession,
    /// Wait the reconnect interval.
    Wait,
    NoAction,
}

/// One supervisor transition: the next state and the action owed.
pub open spec fn spec_supervisor_step(s: SupervisorState, e: SupervisorEvent) -> (
    SupervisorState,
    SupervisorAction,
) {
    if e == SupervisorEvent::StopRequested {
        (
            SupervisorState::Stopped,
            if s == SupervisorState::Active {
                SupervisorAction::TearDownSession
            } else {
                SupervisorAction::NoAction
            },
        )
    } else {
        match s {
            SupervisorState::Stopped => (SupervisorState::Stopped, SupervisorAction::NoAction),
            SupervisorState::Idle => match e {
                SupervisorEvent::Proceed => (
                    SupervisorState::Connecting,
                    SupervisorAction::AttemptConnect,
                ),
                _ => (SupervisorState::Idle, SupervisorAction::NoAction),
            },
            SupervisorState::Connecting => match e {
                SupervisorEvent::ConnectSucceeded => (
                    SupervisorState::Active,
                    SupervisorAction::StartSession,
                ),
                SupervisorEvent::ConnectFailed => (
                    SupervisorState::Draining,
                    SupervisorAction::Wait,
                ),
                _ => (SupervisorState::Connecting, SupervisorAction::NoAction),
            },
            SupervisorState::Active => match e {
                SupervisorEvent::SessionEnded => (
                    SupervisorState::Draining,
                    SupervisorAction::TearDownSession,
                ),
                _ => (SupervisorState::Active, SupervisorAction::NoAction),
            },
            SupervisorState::Draining => match e {
                SupervisorEvent::WaitElapsed => (SupervisorState::Idle, SupervisorAction::NoAction),
                _ => (SupervisorState::Draining, SupervisorAction::NoAction),
            },
        }
    }
}

/// The client: its immutable configuration and where its supervisor
/// stands. The transport itself lives with the runtime that drives this
/// machine.
pub struct WebSocketClient {
    pub config: RemoteControlConfig,
    state: SupervisorState,
}

impl WebSocketClient {
    pub closed spec fn state(&self) -> SupervisorState {
        self.state
    }

    pub closed spec fn spec_config(&self) -> RemoteControlConfig {
        self.config
    }

    /// A fresh client: not yet connected, ready to proceed.
    pub fn new(config: RemoteControlConfig) -> (c: Self)
        ensures
            c.state() == SupervisorState::Idle,
            c.spec_config() == config,
    {
        WebSocketClient { config, state: SupervisorState::Idle }
    }

    pub fn current_state(&self) -> (s: SupervisorState)
        ensures
            s == self.state(),
    {
        self.state
    }

    /// Feeds one event to the supervisor and returns the action owed.
    pub fn step(&mut self, event: SupervisorEvent) -> (a: SupervisorAction)
        ensures
            final(self).state() == spec_supervisor_step(old(self).state(), event).0,
            a == spec_supervisor_step(old(self).state(), event).1,
            final(self).spec_config() == old(self).spec_config(),
    {
        let (next, action): (SupervisorState, SupervisorAction) = if matches!(
            event,
            SupervisorEvent::StopRequested
        ) {
            (
                SupervisorState::Stopped,
                if matches!(self.state, SupervisorState::Active) {
                    SupervisorAction::TearDownSession
                } else {
                    SupervisorAction::NoAction
                },
            )
        } else {
            match self.state {
                SupervisorState::Stopped => (SupervisorState::Stopped, SupervisorAction::NoAction),
                SupervisorState::Idle => match event {
                    SupervisorEvent::Proceed => (
                        SupervisorState::Connecting,
                        SupervisorAction::AttemptConnect,
                    ),
                    _ => (SupervisorState::Idle, SupervisorAction::NoAction),
                },
                SupervisorState::Connecting => match event {
                    SupervisorEvent::ConnectSucceeded => (
                        SupervisorState::Active,
                        SupervisorAction::StartSession,
                    ),
                    SupervisorEvent::ConnectFailed => (
                        SupervisorState::Draining,
                        SupervisorAction::Wait,
                    ),
                    _ => (SupervisorState::Connecting, SupervisorAction::NoAction),
                },
                SupervisorState::Active => match event {
                    SupervisorEvent::SessionEnded => (
                        SupervisorState::Draining,
                        SupervisorAction::TearDownSession,
                    ),
                    _ => (SupervisorState::Active, SupervisorAction::NoAction),
                },
                SupervisorState::Draining => match event {
                    SupervisorEvent::WaitElapsed => (
                        SupervisorState::Idle,
                        SupervisorAction::NoAction,
                    ),
                    _ => (SupervisorState::Draining, SupervisorAction::NoAction),
                },
            }
        };
        self.state = next;
        action
    }
}

/// Law: a stop is absorbing — once stopped, every event leaves the
/// supervisor stopped with nothing owed, so no further connect attempt
/// can occur.
pub proof fn lemma_stop_is_absorbing(e: SupervisorEvent)
    ensures
        spec_supervisor_step(SupervisorState::Stopped, e) == (
            SupervisorState::Stopped,
            SupervisorAction::NoAction,
        ),
{
}

/// Law: only an explicit stop stops the supervisor; any failure leaves
/// it retrying, so reconnection is attempted indefinitely while stop has
/// not been requested.
pub proof fn lemma_only_stop_stops(s: SupervisorState, e: SupervisorEvent)
    ensures
        spec_supervisor_step(s, e).0 == SupervisorState::Stopped ==> (s == SupervisorState::Stopped
            || e == SupervisorEvent::StopRequested),
{
}

/// Law: after any transport failure the supervisor waits the reconnect
/// interval before the next attempt: a connect failure or a session end
/// leads to `Draining` with a wait (the teardown action includes the
/// wait), no event can make `Draining` attempt a connect, and a connect
/// is attempted again only once the wait has elapsed and the supervisor
/// has the turn.
pub proof fn lemma_failure_waits_before_retry(e: SupervisorEvent)
    ensures
        spec_supervisor_step(SupervisorState::Connecting, SupervisorEvent::ConnectFailed) == (
            SupervisorState::Draining,
            SupervisorAction::Wait,
        ),
        spec_supervisor_step(SupervisorState::Active, SupervisorEvent::SessionEnded) == (
            SupervisorState::Draining,
            SupervisorAction::TearDownSession,
        ),
        spec_supervisor_step(SupervisorState::Draining, e).1 != SupervisorAction::AttemptConnect,
        spec_supervisor_step(SupervisorState::Draining, SupervisorEvent::WaitElapsed) == (
            SupervisorState::Idle,
            SupervisorAction::NoAction,
        ),
        spec_supervisor_step(SupervisorState::Idle, SupervisorEvent::Proceed) == (
            SupervisorState::Connecting,
            SupervisorAction::AttemptConnect,
        ),
{
}

/// Law: every transition out of `Active` tears the session down, so the
/// heartbeat and writer tasks are cancelled within one teardown pass of
/// the session's end.
pub proof fn lemma_leaving_active_tears_down(e: SupervisorEvent)
    ensures
        spec_supervisor_step(SupervisorState::Active, e).0 != SupervisorState::Active
            ==> spec_supervisor_step(SupervisorState::Active, e).1
            == SupervisorAction::TearDownSession,
{
}

} // verus!
