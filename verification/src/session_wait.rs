//! The watch over a running session: what one wake-up of the worker's poll
//! over the leader's pidfd, the boundary observer, the signal fd, the
//! control socket, the supervisor channel and the grace timer leads to.
use vstd::prelude::*;

use crate::control::{spec_terminate_matches, terminate_requested, ControlEnvelope, RunningSession};
use crate::payload_scope::PayloadScopeError;
use crate::termination::{
    admit_cause, select_trigger, signals_trigger, spec_select_trigger, spec_signals_trigger,
    CauseAdmission, GracefulTerminationError, LeaderExit, TerminationCause,
    WorkerTerminationSignal,
};

verus! {

/// How the poll itself ended.
#[derive(Debug, Clone, Copy, PartialEq, Eq, Structural)]
pub enum PollState {
    /// A signal interrupted it; poll again.
    Interrupted,
    Failed,
    Ready,
}

/// What the leader's pidfd showed.
#[derive(Debug, Clone, Copy, PartialEq, Eq, Structural)]
pub enum LeaderObservation {
    /// Not readable, or the leader was already reaped.
    NotReady,
    /// Readable, but the leader has not exited.
    StillRunning,
    Exited(LeaderExit),
    /// Reaping the leader failed.
    ReapFailed,
}

/// What the boundary observer showed.
#[derive(Debug, Clone, Copy, PartialEq, Eq, Structural)]
pub enum BoundaryObservation {
    NotReady,
    /// An event arrived with no observer installed.
    ObserverMissing,
    /// The observer's wake-up could not be consumed.
    WakeupFailed,
    /// The pinned unit is terminal.
    Terminal,
    /// The pinned unit is not terminal yet.
    NotTerminal,
    /// Checking the unit failed.
    Failed(PayloadScopeError),
}

/// What the signal fd gave.
#[derive(Debug, Clone, PartialEq, Eq)]
pub enum SignalObservation {
    NotReady,
    /// The signals read, in order, until none was left.
    Read(Vec<i32>),
    /// A read of the signal fd failed.
    ReadFailed,
}

/// What the control socket gave.
#[derive(Debug, Clone, PartialEq, Eq)]
pub enum ControlObservation {
    NotReady,
    /// An event arrived with no listener.
    ListenerMissing,
    /// Nothing was waiting to be accepted.
    WouldBlock,
    AcceptFailed,
    /// The connection came from a peer of another user and was dropped.
    PeerRejected,
    /// The request could not be read.
    ReadFailed,
    Request(ControlEnvelope),
}

/// Everything one wake-up of the watch observed.
#[derive(Debug, Clone, PartialEq, Eq)]
pub struct WakeUp {
    pub poll: PollState,
    pub leader: LeaderObservation,
    pub boundary: BoundaryObservation,
    pub signals: SignalObservation,
    /// The control socket hung up or failed.
    pub control_hangup: bool,
    /// The supervisor channel became readable or hung up.
    pub supervisor_event: bool,
    pub control: ControlObservation,
}

/// Where a wake-up leads.
#[derive(Debug, Clone, Copy, PartialEq, Eq, Structural)]
pub enum WakeUpDecision {
    /// Poll again.
    Retry,
    /// The watch failed; ownership is kept.
    Infrastructure(GracefulTerminationError),
    /// The boundary is a candidate for the empty proof.
    BoundaryCandidate,
    /// The scope check failed.
    ScopeFailure(PayloadScopeError),
    /// A connection from the wrong user was dropped; nothing else of this
    /// wake-up is acted on.
    Skip,
    /// Go on with the cause, if any, and then the timer.
    Proceed(CauseAdmission),
}

/// The verdict on a control request while the session runs: `Ok(true)` for
/// an authentic terminate request, `Ok(false)` where nothing was asked, an
/// error where the control channel failed.
pub open spec fn spec_control_verdict(
    control: ControlObservation,
    supported_version: u32,
    running: RunningSession,
) -> Result<bool, GracefulTerminationError> {
    match control {
        ControlObservation::NotReady => Ok(false),
        ControlObservation::WouldBlock => Ok(false),
        ControlObservation::PeerRejected => Ok(false),
        ControlObservation::Request(envelope) => if envelope.version == supported_version
            && spec_terminate_matches(envelope.message, running) {
            Ok(true)
        } else {
            Err(GracefulTerminationError::Control)
        },
        _ => Err(GracefulTerminationError::Control),
    }
}

/// The decision on one wake-up, in the order the watch looks: the poll,
/// the leader, the boundary, the signals, the control socket; then the
/// cause the wake-up yields, by `spec_select_trigger`, is admitted only if
/// none was recorded before.
pub open spec fn spec_wake_up_decision(
    wake: WakeUp,
    supported_version: u32,
    running: RunningSession,
    recorded: Option<TerminationCause>,
) -> WakeUpDecision {
    if wake.poll == PollState::Interrupted {
        WakeUpDecision::Retry
    } else if wake.poll == PollState::Failed {
        WakeUpDecision::Infrastructure(GracefulTerminationError::Poll)
    } else if wake.leader == LeaderObservation::ReapFailed {
        WakeUpDecision::Infrastructure(GracefulTerminationError::LeaderReap)
    } else if wake.boundary == BoundaryObservation::ObserverMissing || wake.boundary
        == BoundaryObservation::WakeupFailed {
        WakeUpDecision::Infrastructure(GracefulTerminationError::BoundaryObserver)
    } else if wake.boundary == BoundaryObservation::Terminal {
        WakeUpDecision::BoundaryCandidate
    } else if wake.boundary is Failed {
        WakeUpDecision::ScopeFailure(wake.boundary->Failed_0)
    } else {
        let signal: Result<Option<WorkerTerminationSignal>, GracefulTerminationError> =
            match wake.signals {
            SignalObservation::NotReady => Ok(None),
            SignalObservation::ReadFailed => Err(GracefulTerminationError::Signal),
            SignalObservation::Read(raw) => spec_signals_trigger(raw@),
        };
        if signal is Err {
            WakeUpDecision::Infrastructure(signal->Err_0)
        } else if wake.control == ControlObservation::PeerRejected {
            WakeUpDecision::Skip
        } else {
            match spec_control_verdict(wake.control, supported_version, running) {
                Err(e) => WakeUpDecision::Infrastructure(e),
                Ok(terminate) => {
                    let leader_exit = match wake.leader {
                        LeaderObservation::Exited(exit) => Some(exit),
                        _ => None,
                    };
                    let trigger = spec_select_trigger(
                        leader_exit,
                        signal->Ok_0,
                        wake.control_hangup,
                        wake.supervisor_event,
                        terminate,
                    );
                    WakeUpDecision::Proceed(
                        match trigger {
                            None => CauseAdmission::NoTrigger,
                            Some(c) => if recorded is Some {
                                CauseAdmission::Duplicate
                            } else {
                                CauseAdmission::Begin(c)
                            },
                        },
                    )
                },
            }
        }
    }
}

fn control_verdict(control: &ControlObservation, supported_version: u32, running: &RunningSession) -> (r:
    Result<bool, GracefulTerminationError>)
    ensures
        r == spec_control_verdict(*control, supported_version, *running),
{
    match control {
        ControlObservation::NotReady => Ok(false),
        ControlObservation::WouldBlock => Ok(false),
        ControlObservation::PeerRejected => Ok(false),
        ControlObservation::Request(envelope) => {
            if terminate_requested(envelope, supported_version, running) {
                Ok(true)
            } else {
                Err(GracefulTerminationError::Control)
            }
        },
        _ => Err(GracefulTerminationError::Control),
    }
}

/// Decides what one wake-up of the session watch leads to.
pub fn wake_up_decision(
    wake: &WakeUp,
    supported_version: u32,
    running: &RunningSession,
    recorded: Option<TerminationCause>,
) -> (r: WakeUpDecision)
    ensures
        r == spec_wake_up_decision(*wake, supported_version, *running, recorded),
{
    match wake.poll {
        PollState::Interrupted => {
            return WakeUpDecision::Retry;
        },
        PollState::Failed => {
            return WakeUpDecision::Infrastructure(GracefulTerminationError::Poll);
        },
        PollState::Ready => {},
    }
    let leader_exit = match wake.leader {
        LeaderObservation::ReapFailed => {
            return WakeUpDecision::Infrastructure(GracefulTerminationError::LeaderReap);
        },
        LeaderObservation::Exited(exit) => Some(exit),
        _ => None,
    };
    match wake.boundary {
        BoundaryObservation::ObserverMissing | BoundaryObservation::WakeupFailed => {
            return WakeUpDecision::Infrastructure(GracefulTerminationError::BoundaryObserver);
        },
        BoundaryObservation::Terminal => {
            return WakeUpDecision::BoundaryCandidate;
        },
        BoundaryObservation::Failed(e) => {
            return WakeUpDecision::ScopeFailure(e);
        },
        _ => {},
    }
    let signal = match &wake.signals {
        SignalObservation::NotReady => None,
        SignalObservation::ReadFailed => {
            return WakeUpDecision::Infrastructure(GracefulTerminationError::Signal);
        },
        SignalObservation::Read(raw) => match signals_trigger(raw.as_slice()) {
            Ok(first) => first,
            Err(e) => {
                return WakeUpDecision::Infrastructure(e);
            },
        },
    };
    if let ControlObservation::PeerRejected = wake.control {
        return WakeUpDecision::Skip;
    }
    let terminate = match control_verdict(&wake.control, supported_version, running) {
        Ok(t) => t,
        Err(e) => {
            return WakeUpDecision::Infrastructure(e);
        },
    };
    let trigger = select_trigger(
        leader_exit,
        signal,
        wake.control_hangup,
        wake.supervisor_event,
        terminate,
    );
    WakeUpDecision::Proceed(admit_cause(recorded, trigger))
}

/// In a wake-up that reaches the cause, the leader's exit is the cause
/// whatever else arrived with it, and a cause is begun only once: after one
/// was recorded, every later trigger is a duplicate.
pub proof fn lemma_wake_up_causes(
    wake: WakeUp,
    supported_version: u32,
    running: RunningSession,
    recorded: Option<TerminationCause>,
)
    ensures
        wake.leader is Exited && recorded is None && spec_wake_up_decision(
            wake,
            supported_version,
            running,
            recorded,
        ) is Proceed ==> spec_wake_up_decision(wake, supported_version, running, recorded)
            == WakeUpDecision::Proceed(
            CauseAdmission::Begin(TerminationCause::LeaderExited(wake.leader->Exited_0)),
        ),
        recorded is Some ==> !(spec_wake_up_decision(
            wake,
            supported_version,
            running,
            recorded,
        ) matches WakeUpDecision::Proceed(CauseAdmission::Begin(_))),
{
}

/// What the grace timer showed after the cause was handled.
#[derive(Debug, Clone, Copy, PartialEq, Eq, Structural)]
pub enum TimerObservation {
    NotReady,
    NotExpired,
    Expired,
    ReadFailed,
}

/// Where the timer leads.
#[derive(Debug, Clone, Copy, PartialEq, Eq, Structural)]
pub enum DeadlineDecision {
    KeepWaiting,
    /// The grace period ran out.
    DeadlineExpired,
    /// Reading the timer failed.
    TimerFailed,
}

pub fn deadline_decision(timer: TimerObservation) -> (r: DeadlineDecision)
    ensures
        r == (match timer {
            TimerObservation::ReadFailed => DeadlineDecision::TimerFailed,
            TimerObservation::Expired => DeadlineDecision::DeadlineExpired,
            _ => DeadlineDecision::KeepWaiting,
        }),
{
    match timer {
        TimerObservation::ReadFailed => DeadlineDecision::TimerFailed,
        TimerObservation::Expired => DeadlineDecision::DeadlineExpired,
        _ => DeadlineDecision::KeepWaiting,
    }
}

/// What the watch without a signal fd does with a control event.
#[derive(Debug, Clone, Copy, PartialEq, Eq, Structural)]
pub enum LegacyControlDecision {
    /// Keep waiting.
    Ignore,
    /// Terminate the session child and return its status.
    Terminate,
    /// Fail the session.
    Fail,
}

/// The watch without a signal fd takes connections from root only; a
/// matching terminate request of the supported version ends the session,
/// anything else read from root fails it.
pub fn legacy_control_decision(
    control: &ControlObservation,
    supported_version: u32,
    running: &RunningSession,
) -> (r: LegacyControlDecision)
    ensures
        r == (match *control {
            ControlObservation::NotReady => LegacyControlDecision::Ignore,
            ControlObservation::WouldBlock => LegacyControlDecision::Ignore,
            ControlObservation::PeerRejected => LegacyControlDecision::Ignore,
            ControlObservation::Request(envelope) => if envelope.version == supported_version
                && spec_terminate_matches(envelope.message, *running) {
                LegacyControlDecision::Terminate
            } else {
                LegacyControlDecision::Fail
            },
            _ => LegacyControlDecision::Fail,
        }),
{
    match control {
        ControlObservation::NotReady => LegacyControlDecision::Ignore,
        ControlObservation::WouldBlock => LegacyControlDecision::Ignore,
        ControlObservation::PeerRejected => LegacyControlDecision::Ignore,
        ControlObservation::Request(envelope) => {
            if terminate_requested(envelope, supported_version, running) {
                LegacyControlDecision::Terminate
            } else {
                LegacyControlDecision::Fail
            }
        },
        _ => LegacyControlDecision::Fail,
    }
}

} // verus!
