//! The attachment state machine. `connect` is a sequence of network
//! operations punctuated by decisions: poll until the service answers (with
//! a bound), take the handshake body apart, try the upgrade (with a bound),
//! send the probe frame, attach the loops. The decisions stand here: a
//! driver performs one I/O operation per `PhaseAction`, reports its outcome
//! as a `PhaseEvent`, and steps the machine.

use vstd::prelude::*;

verus! {

/// How many readiness polls are attempted before giving up.
pub const MAX_POLL_ATTEMPTS: u64 = 15;

/// How many connection upgrades are attempted before giving up.
pub const MAX_UPGRADE_ATTEMPTS: u64 = 5;

/// The fixed delay, in seconds, between two attempts of either kind.
pub const RETRY_DELAY_SECS: u64 = 2;

/// Why an attachment attempt failed.
#[derive(Clone, Copy, Debug, PartialEq, Eq, Structural)]
pub enum FailKind {
    /// The readiness poll exhausted its bound.
    ServerUnavailable,
    /// The handshake body carried no session identifier.
    HandshakeParse,
    /// The upgrade exhausted its bound, or the probe frame could not be
    /// sent.
    Connect,
}

/// Where an attachment attempt stands.
#[derive(Clone, Copy, Debug, PartialEq, Eq, Structural)]
pub enum Phase {
    /// Waiting for the service to answer; `failures` polls failed so far.
    Polling { failures: u64 },
    /// The service answered; the handshake response is awaited.
    Handshaking,
    /// A session identifier is in hand; `failures` upgrades failed so far.
    Upgrading { failures: u64 },
    /// The connection is up; the probe frame is being sent.
    Probing,
    /// The upgrade sequence is complete.
    Connected,
    /// The attempt is over.
    Failed { kind: FailKind },
}

/// The outcome of the I/O operation the last action asked for.
#[derive(Clone, Copy, Debug, PartialEq, Eq, Structural)]
pub enum PhaseEvent {
    /// The readiness poll got an answer.
    PollOk,
    /// The readiness poll got none.
    PollFailed,
    /// The handshake body carried a session identifier.
    SidFound,
    /// The handshake body carried none.
    SidMissing,
    /// The connection upgrade succeeded.
    UpgradeOk,
    /// The connection upgrade failed.
    UpgradeFailed,
    /// The probe frame went out.
    ProbeOk,
    /// The probe frame could not be sent.
    ProbeFailed,
}

/// What a driver must do next in a given phase.
#[derive(Clone, Copy, Debug, PartialEq, Eq, Structural)]
pub enum PhaseAction {
    /// Request the readiness URL.
    Poll,
    /// Wait the retry delay, then request the readiness URL.
    WaitThenPoll,
    /// Request the handshake URL and look for the session identifier.
    Handshake,
    /// Attempt the connection upgrade.
    Upgrade,
    /// Wait the retry delay, then attempt the upgrade again.
    WaitThenUpgrade,
    /// Send the probe frame over the fresh connection.
    Probe,
    /// Attach the inbound and outbound loops and hand out the session.
    Succeed,
    /// Give up with the given kind of failure.
    Fail { kind: FailKind },
}

/// Why an attachment attempt failed, as reported to the caller.
#[derive(Debug, Clone, PartialEq, Eq)]
pub enum AttachError {
    /// The readiness poll exhausted its bound.
    ServerUnavailable,
    /// The handshake body carried no session identifier.
    HandshakeParseError,
    /// The upgrade exhausted its bound, or the probe frame could not be
    /// sent; carries the text of the last transport error.
    ConnectError(String),
}

/// The error reported for a failure kind; a connection failure carries the
/// text of the last transport error, the other kinds need none.
pub fn attach_error(kind: FailKind, last_error: String) -> (r: AttachError)
    ensures
        kind == FailKind::ServerUnavailable ==> r is ServerUnavailable,
        kind == FailKind::HandshakeParse ==> r is HandshakeParseError,
        kind == FailKind::Connect ==> (r matches AttachError::ConnectError(m) && m@
            == last_error@),
{
    match kind {
        FailKind::ServerUnavailable => AttachError::ServerUnavailable,
        FailKind::HandshakeParse => AttachError::HandshakeParseError,
        FailKind::Connect => AttachError::ConnectError(last_error),
    }
}

/// The phase an attachment attempt starts in.
pub open spec fn initial() -> Phase {
    Phase::Polling { failures: 0 }
}

/// The transition relation: the phase after observing `e` in phase `s`. An
/// event that does not belong to the phase, or arrives in a terminal phase,
/// changes nothing.
pub open spec fn phase_step(s: Phase, e: PhaseEvent) -> Phase {
    match (s, e) {
        (Phase::Polling { failures: _ }, PhaseEvent::PollOk) => Phase::Handshaking,
        (Phase::Polling { failures }, PhaseEvent::PollFailed) => if failures + 1
            < MAX_POLL_ATTEMPTS {
            Phase::Polling { failures: (failures + 1) as u64 }
        } else {
            Phase::Failed { kind: FailKind::ServerUnavailable }
        },
        (Phase::Handshaking, PhaseEvent::SidFound) => Phase::Upgrading { failures: 0 },
        (Phase::Handshaking, PhaseEvent::SidMissing) => Phase::Failed {
            kind: FailKind::HandshakeParse,
        },
        (Phase::Upgrading { failures: _ }, PhaseEvent::UpgradeOk) => Phase::Probing,
        (Phase::Upgrading { failures }, PhaseEvent::UpgradeFailed) => if failures + 1
            < MAX_UPGRADE_ATTEMPTS {
            Phase::Upgrading { failures: (failures + 1) as u64 }
        } else {
            Phase::Failed { kind: FailKind::Connect }
        },
        (Phase::Probing, PhaseEvent::ProbeOk) => Phase::Connected,
        (Phase::Probing, PhaseEvent::ProbeFailed) => Phase::Failed { kind: FailKind::Connect },
        _ => s,
    }
}

/// The action a driver performs in phase `s`: a retry phase that was entered
/// through a failure waits the fixed delay first.
pub open spec fn action_of(s: Phase) -> PhaseAction {
    match s {
        Phase::Polling { failures } => if failures == 0 {
            PhaseAction::Poll
        } else {
            PhaseAction::WaitThenPoll
        },
        Phase::Handshaking => PhaseAction::Handshake,
        Phase::Upgrading { failures } => if failures == 0 {
            PhaseAction::Upgrade
        } else {
            PhaseAction::WaitThenUpgrade
        },
        Phase::Probing => PhaseAction::Probe,
        Phase::Connected => PhaseAction::Succeed,
        Phase::Failed { kind } => PhaseAction::Fail { kind },
    }
}

/// The delay, in seconds, that performing an action spends waiting.
pub open spec fn delay_of(a: PhaseAction) -> int {
    match a {
        PhaseAction::WaitThenPoll => RETRY_DELAY_SECS as int,
        PhaseAction::WaitThenUpgrade => RETRY_DELAY_SECS as int,
        _ => 0,
    }
}

/// The phase reached after observing `evs` in order, starting from `s`.
pub open spec fn run(s: Phase, evs: Seq<PhaseEvent>) -> Phase
    decreases evs.len(),
{
    if evs.len() == 0 {
        s
    } else {
        run(phase_step(s, evs[0]), evs.skip(1))
    }
}

/// The seconds spent waiting over a run: the delay of the action of every
/// phase the run visits, the starting phase included.
pub open spec fn total_delay(s: Phase, evs: Seq<PhaseEvent>) -> int
    decreases evs.len(),
{
    if evs.len() == 0 {
        delay_of(action_of(s))
    } else {
        delay_of(action_of(s)) + total_delay(phase_step(s, evs[0]), evs.skip(1))
    }
}

/// The phase an attachment attempt starts in.
pub fn start() -> (s: Phase)
    ensures
        s == initial(),
{
    Phase::Polling { failures: 0 }
}

/// Steps the machine once.
pub fn step(s: Phase, e: PhaseEvent) -> (r: Phase)
    ensures
        r == phase_step(s, e),
{
    match (s, e) {
        (Phase::Polling { failures: _ }, PhaseEvent::PollOk) => Phase::Handshaking,
        (Phase::Polling { failures }, PhaseEvent::PollFailed) => {
            if failures < MAX_POLL_ATTEMPTS - 1 {
                Phase::Polling { failures: failures + 1 }
            } else {
                Phase::Failed { kind: FailKind::ServerUnavailable }
            }
        },
        (Phase::Handshaking, PhaseEvent::SidFound) => Phase::Upgrading { failures: 0 },
        (Phase::Handshaking, PhaseEvent::SidMissing) => Phase::Failed {
            kind: FailKind::HandshakeParse,
        },
        (Phase::Upgrading { failures: _ }, PhaseEvent::UpgradeOk) => Phase::Probing,
        (Phase::Upgrading { failures }, PhaseEvent::UpgradeFailed) => {
            if failures < MAX_UPGRADE_ATTEMPTS - 1 {
                Phase::Upgrading { failures: failures + 1 }
            } else {
                Phase::Failed { kind: FailKind::Connect }
            }
        },
        (Phase::Probing, PhaseEvent::ProbeOk) => Phase::Connected,
        (Phase::Probing, PhaseEvent::ProbeFailed) => Phase::Failed { kind: FailKind::Connect },
        (other, _) => other,
    }
}

/// The action a driver performs in phase `s`.
pub fn next_action(s: Phase) -> (a: PhaseAction)
    ensures
        a == action_of(s),
{
    match s {
        Phase::Polling { failures } => {
            if failures == 0 {
                PhaseAction::Poll
            } else {
                PhaseAction::WaitThenPoll
            }
        },
        Phase::Handshaking => PhaseAction::Handshake,
        Phase::Upgrading { failures } => {
            if failures == 0 {
                PhaseAction::Upgrade
            } else {
                PhaseAction::WaitThenUpgrade
            }
        },
        Phase::Probing => PhaseAction::Probe,
        Phase::Connected => PhaseAction::Succeed,
        Phase::Failed { kind } => PhaseAction::Fail { kind },
    }
}

proof fn lemma_poll_failures_from(f: u64, evs: Seq<PhaseEvent>)
    requires
        f < MAX_POLL_ATTEMPTS,
        f + evs.len() <= MAX_POLL_ATTEMPTS,
        forall|i: int| 0 <= i < evs.len() ==> evs[i] == PhaseEvent::PollFailed,
    ensures
        f + evs.len() < MAX_POLL_ATTEMPTS ==> run(Phase::Polling { failures: f }, evs) == (
        Phase::Polling { failures: (f + evs.len()) as u64 }),
        f + evs.len() == MAX_POLL_ATTEMPTS ==> run(Phase::Polling { failures: f }, evs) == (
        Phase::Failed { kind: FailKind::ServerUnavailable }),
        f == 0 && f + evs.len() == MAX_POLL_ATTEMPTS ==> total_delay(
            Phase::Polling { failures: f },
            evs,
        ) == (MAX_POLL_ATTEMPTS - 1) * (RETRY_DELAY_SECS as int),
        f >= 1 && f + evs.len() == MAX_POLL_ATTEMPTS ==> total_delay(
            Phase::Polling { failures: f },
            evs,
        ) == (MAX_POLL_ATTEMPTS - f) * (RETRY_DELAY_SECS as int),
    decreases evs.len(),
{
    if evs.len() > 0 {
        if f + 1 < MAX_POLL_ATTEMPTS {
            lemma_poll_failures_from((f + 1) as u64, evs.skip(1));
        } else {
            assert(evs.len() == 1);
            assert(evs.skip(1).len() == 0);
            assert(run(Phase::Polling { failures: f }, evs) == run(
                Phase::Failed { kind: FailKind::ServerUnavailable },
                evs.skip(1),
            ));
            assert(total_delay(Phase::Failed { kind: FailKind::ServerUnavailable }, evs.skip(1))
                == 0);
        }
    }
}

/// The retry bound of the readiness poll: against a service that never
/// answers, a run of fewer failures than the bound is still polling with
/// that many failures on record, the run of exactly the bound's worth of
/// failures ends in `ServerUnavailable`, and a run that fails does so after
/// one fixed delay for every attempt but the first.
pub proof fn lemma_poll_retry_bound(evs: Seq<PhaseEvent>)
    requires
        evs.len() <= MAX_POLL_ATTEMPTS,
        forall|i: int| 0 <= i < evs.len() ==> evs[i] == PhaseEvent::PollFailed,
    ensures
        evs.len() < MAX_POLL_ATTEMPTS ==> run(initial(), evs) == (Phase::Polling {
            failures: evs.len() as u64,
        }),
        evs.len() == MAX_POLL_ATTEMPTS ==> run(initial(), evs) == (Phase::Failed {
            kind: FailKind::ServerUnavailable,
        }),
        evs.len() == MAX_POLL_ATTEMPTS ==> total_delay(initial(), evs) == (MAX_POLL_ATTEMPTS - 1)
            * (RETRY_DELAY_SECS as int),
{
    lemma_poll_failures_from(0, evs);
}

} // verus!
