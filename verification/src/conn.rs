//! The per-connection lifecycle.  A connection moves through a fixed set of
//! states; every transition names the one action the supervisor owes before
//! the next event.  Teardown is local only: cancelling the forwarder and
//! releasing the child-process reference and the pseudo-terminal never
//! signals the external session, which is designed to survive detachment.

use vstd::prelude::*;

verus! {

/// Where a connection stands in its life.
#[derive(Clone, Copy, PartialEq, Eq, Structural, Debug)]
pub enum ConnState {
    /// The upgrade request arrived and is being negotiated.
    Connecting,
    /// The upgrade was accepted; credentials are being checked.
    Authenticating,
    /// Credentials matched; the pseudo-terminal is being opened and the
    /// attach-or-create command spawned.
    Launching,
    /// Both data paths are running.
    Relaying,
    /// One path terminated; the other is being cancelled.
    Closing,
    /// Terminal state, after failure or graceful teardown alike.
    Closed,
}

/// What a connection observes.
#[derive(Clone, Copy, PartialEq, Eq, Structural, Debug)]
pub enum ConnEvent {
    /// The network upgrade was negotiated.
    UpgradeAccepted,
    /// The supplied credentials matched the configured ones.
    CredentialsAccepted,
    /// The credentials were absent, malformed, or wrong.
    CredentialsRejected,
    /// The pseudo-terminal opened and the attach command spawned.
    LaunchSucceeded,
    /// Opening the pseudo-terminal or spawning the command failed.
    LaunchFailed,
    /// Either data path hit its end: peer close, end-of-stream, or a
    /// read or write error on either side.
    PathTerminated,
    /// The still-running path has been cancelled and awaited.
    TeardownComplete,
}

/// The one action the supervisor performs on a transition.
#[derive(Clone, Copy, PartialEq, Eq, Structural, Debug)]
pub enum ConnAction {
    /// Move on; nothing to perform.
    Proceed,
    /// Answer the peer with an unauthorized rejection; no pseudo-terminal
    /// is ever allocated on this path.
    RejectUnauthorized,
    /// Report the launch failure to the peer best-effort, then close.
    ReportErrorAndClose,
    /// Start the two data paths.
    StartRelay,
    /// Cancel the outbound forwarding task.
    CancelForwarder,
    /// Drop the child-process reference and close the pseudo-terminal,
    /// without signalling the external session.
    ReleaseLocalResources,
}

/// The connection state machine.  A pair is returned only for the
/// transitions the design allows; any other event is meaningless in that
/// state and leaves the connection where it was.
pub open spec fn conn_transition(state: ConnState, event: ConnEvent) -> Option<
    (ConnState, ConnAction),
> {
    match (state, event) {
        (ConnState::Connecting, ConnEvent::UpgradeAccepted) => Some(
            (ConnState::Authenticating, ConnAction::Proceed),
        ),
        (ConnState::Authenticating, ConnEvent::CredentialsAccepted) => Some(
            (ConnState::Launching, ConnAction::Proceed),
        ),
        (ConnState::Authenticating, ConnEvent::CredentialsRejected) => Some(
            (ConnState::Closed, ConnAction::RejectUnauthorized),
        ),
        (ConnState::Launching, ConnEvent::LaunchSucceeded) => Some(
            (ConnState::Relaying, ConnAction::StartRelay),
        ),
        (ConnState::Launching, ConnEvent::LaunchFailed) => Some(
            (ConnState::Closed, ConnAction::ReportErrorAndClose),
        ),
        (ConnState::Relaying, ConnEvent::PathTerminated) => Some(
            (ConnState::Closing, ConnAction::CancelForwarder),
        ),
        (ConnState::Closing, ConnEvent::TeardownComplete) => Some(
            (ConnState::Closed, ConnAction::ReleaseLocalResources),
        ),
        _ => None,
    }
}

/// Drives the connection state machine one step.
pub fn conn_step(state: ConnState, event: ConnEvent) -> (r: Option<(ConnState, ConnAction)>)
    ensures
        r == conn_transition(state, event),
{
    match (state, event) {
        (ConnState::Connecting, ConnEvent::UpgradeAccepted) => Some(
            (ConnState::Authenticating, ConnAction::Proceed),
        ),
        (ConnState::Authenticating, ConnEvent::CredentialsAccepted) => Some(
            (ConnState::Launching, ConnAction::Proceed),
        ),
        (ConnState::Authenticating, ConnEvent::CredentialsRejected) => Some(
            (ConnState::Closed, ConnAction::RejectUnauthorized),
        ),
        (ConnState::Launching, ConnEvent::LaunchSucceeded) => Some(
            (ConnState::Relaying, ConnAction::StartRelay),
        ),
        (ConnState::Launching, ConnEvent::LaunchFailed) => Some(
            (ConnState::Closed, ConnAction::ReportErrorAndClose),
        ),
        (ConnState::Relaying, ConnEvent::PathTerminated) => Some(
            (ConnState::Closing, ConnAction::CancelForwarder),
        ),
        (ConnState::Closing, ConnEvent::TeardownComplete) => Some(
            (ConnState::Closed, ConnAction::ReleaseLocalResources),
        ),
        _ => None,
    }
}

/// On peer disconnect — or any other terminating event of a data path —
/// the very next transition cancels the outbound forwarder, and the step
/// after that only releases local resources: the machine offers no action
/// that signals or kills the external session.
pub proof fn lemma_disconnect_cancels_forwarder()
    ensures
        conn_transition(ConnState::Relaying, ConnEvent::PathTerminated) == Some(
            (ConnState::Closing, ConnAction::CancelForwarder),
        ),
        conn_transition(ConnState::Closing, ConnEvent::TeardownComplete) == Some(
            (ConnState::Closed, ConnAction::ReleaseLocalResources),
        ),
        forall|e: ConnEvent| conn_transition(ConnState::Closed, e) is None,
{
}

/// The relay starts only behind the gates the design demands: a connection
/// reaches `Launching` only out of `Authenticating` on accepted
/// credentials, and `Relaying` only out of `Launching` on a successful
/// launch.  Rejected credentials close the connection at once, so no
/// pseudo-terminal is ever allocated for them.
pub proof fn lemma_auth_gates_relay()
    ensures
        forall|s: ConnState, e: ConnEvent|
            {
                match #[trigger] conn_transition(s, e) {
                    Some(t) => t.0 == ConnState::Launching ==> s == ConnState::Authenticating
                        && e == ConnEvent::CredentialsAccepted,
                    None => true,
                }
            },
        forall|s: ConnState, e: ConnEvent|
            {
                match #[trigger] conn_transition(s, e) {
                    Some(t) => t.0 == ConnState::Relaying ==> s == ConnState::Launching && e
                        == ConnEvent::LaunchSucceeded,
                    None => true,
                }
            },
        conn_transition(ConnState::Authenticating, ConnEvent::CredentialsRejected) == Some(
            (ConnState::Closed, ConnAction::RejectUnauthorized),
        ),
{
}

} // verus!
