//! The worker's side of its control channel with the supervisor: which
//! requests it admits, and which acknowledgements it believes.
use vstd::prelude::*;

use crate::launch::{PayloadScopeReleaseOutcome, RejectionCode};
use crate::text::text_equal;

verus! {

/// How a worker request or session ends in failure.
#[derive(Debug, Clone, Copy, PartialEq, Eq, Structural)]
pub enum SessionError {
    WorkerProtocolFailed,
    WorkerIoFailed,
    WorkerTimedOut,
    WorkerRejected,
    AuthenticationFailed,
    AuthenticatedSessionFailed,
}

/// A message on the control channel between supervisor and worker.
#[derive(Debug, Clone, PartialEq, Eq)]
pub enum ControlMessage {
    PayloadScopeRegistered { worker_id: String, expected_worker_pid: u32, registration_nonce: String },
    Terminate {
        worker_id: String,
        expected_worker_pid: u32,
        expected_session_pid: u32,
        expected_session_pgid: u32,
    },
    PayloadScopeReleased {
        worker_id: String,
        expected_worker_pid: u32,
        registration_nonce: String,
        release_nonce: String,
    },
    PayloadScopeRecoveryRequired {
        worker_id: String,
        expected_worker_pid: u32,
        registration_nonce: String,
        release_nonce: String,
    },
}

/// A control message with the protocol version it was sent under.
#[derive(Debug, Clone, PartialEq, Eq)]
pub struct ControlEnvelope {
    pub version: u32,
    pub message: ControlMessage,
}

/// The running session the worker watches, as a terminate request must
/// name it.
#[derive(Debug, Clone, PartialEq, Eq)]
pub struct RunningSession {
    pub worker_id: String,
    pub worker_pid: u32,
    pub session_pid: u32,
    pub session_pgid: u32,
}

/// A terminate request names exactly this worker and its session.
pub open spec fn spec_terminate_matches(message: ControlMessage, running: RunningSession) -> bool {
    &&& message matches ControlMessage::Terminate {
        worker_id,
        expected_worker_pid,
        expected_session_pid,
        expected_session_pgid,
    }
    &&& message->Terminate_worker_id@ == running.worker_id@
    &&& message->Terminate_expected_worker_pid == running.worker_pid
    &&& message->Terminate_expected_session_pid == running.session_pid
    &&& message->Terminate_expected_session_pgid == running.session_pgid
}

/// Whether a request on the control socket of a running session is an
/// authentic terminate request: the supported version, and a `Terminate`
/// naming this worker and session. Anything else is a control failure.
pub fn terminate_requested(envelope: &ControlEnvelope, supported_version: u32, running: &RunningSession) -> (r: bool)
    ensures
        r == (envelope.version == supported_version && spec_terminate_matches(
            envelope.message,
            *running,
        )),
{
    if envelope.version != supported_version {
        return false;
    }
    match &envelope.message {
        ControlMessage::Terminate {
            worker_id,
            expected_worker_pid,
            expected_session_pid,
            expected_session_pgid,
        } => text_equal(worker_id.as_str(), running.worker_id.as_str()) && *expected_worker_pid
            == running.worker_pid && *expected_session_pid == running.session_pid
            && *expected_session_pgid == running.session_pgid,
        _ => false,
    }
}

/// The registration the worker announced and awaits the acknowledgement of.
#[derive(Debug, Clone, PartialEq, Eq)]
pub struct PendingRegistration {
    pub worker_id: String,
    pub worker_pid: u32,
    pub registration_nonce: String,
}

/// The verdict on the reply to a scope announcement: only a
/// `PayloadScopeRegistered` of the supported version that repeats this
/// worker, its pid and the nonce acknowledges it.
pub open spec fn spec_ack_verdict(
    envelope: ControlEnvelope,
    supported_version: u32,
    pending: PendingRegistration,
) -> Result<(), SessionError> {
    if envelope.version == supported_version && (envelope.message matches ControlMessage::PayloadScopeRegistered {
        worker_id,
        expected_worker_pid,
        registration_nonce,
    } && worker_id@ == pending.worker_id@ && expected_worker_pid == pending.worker_pid
        && registration_nonce@ == pending.registration_nonce@) {
        Ok(())
    } else {
        Err(SessionError::WorkerProtocolFailed)
    }
}

pub fn ack_verdict(
    envelope: &ControlEnvelope,
    supported_version: u32,
    pending: &PendingRegistration,
) -> (r: Result<(), SessionError>)
    ensures
        r == spec_ack_verdict(*envelope, supported_version, *pending),
{
    if envelope.version != supported_version {
        return Err(SessionError::WorkerProtocolFailed);
    }
    match &envelope.message {
        ControlMessage::PayloadScopeRegistered { worker_id, expected_worker_pid, registration_nonce } => {
            if text_equal(worker_id.as_str(), pending.worker_id.as_str()) && *expected_worker_pid
                == pending.worker_pid && text_equal(
                registration_nonce.as_str(),
                pending.registration_nonce.as_str(),
            ) {
                Ok(())
            } else {
                Err(SessionError::WorkerProtocolFailed)
            }
        },
        _ => Err(SessionError::WorkerProtocolFailed),
    }
}

/// What one `poll` of the launch channels reported.
#[derive(Debug, Clone, Copy, PartialEq, Eq, Structural)]
pub enum ChannelPoll {
    TimedOut,
    Failed,
    Ready { signal: bool, readable: bool, hangup: bool },
}

/// What reading the supervisor channel gave.
#[derive(Debug, Clone, PartialEq, Eq)]
pub enum ChannelRead {
    /// Nothing was read: the channel was not readable.
    NotRead,
    /// The channel could not be prepared for the read.
    SetupFailed(SessionError),
    /// A complete message arrived.
    Received(ControlEnvelope),
    /// The read itself failed.
    ReadFailed(SessionError),
}

/// The outcome of waiting for the acknowledgement. A pending worker signal
/// cancels the launch; a complete message is judged even where the channel
/// also hung up; a failed read counts as a disconnection where the channel
/// hung up, and as its own error otherwise.
pub open spec fn spec_ack_wait_outcome(
    poll: ChannelPoll,
    read: ChannelRead,
    supported_version: u32,
    pending: PendingRegistration,
) -> Result<(), SessionError> {
    match poll {
        ChannelPoll::TimedOut => Err(SessionError::WorkerTimedOut),
        ChannelPoll::Failed => Err(SessionError::WorkerIoFailed),
        ChannelPoll::Ready { signal, readable, hangup } => if signal {
            Err(SessionError::AuthenticatedSessionFailed)
        } else if readable && (read matches ChannelRead::SetupFailed(e)) {
            Err(read->SetupFailed_0)
        } else if readable && (read matches ChannelRead::Received(envelope)) {
            spec_ack_verdict(read->Received_0, supported_version, pending)
        } else if readable && (read matches ChannelRead::ReadFailed(e)) && !hangup {
            Err(read->ReadFailed_0)
        } else if hangup {
            Err(SessionError::AuthenticatedSessionFailed)
        } else {
            Err(SessionError::WorkerIoFailed)
        },
    }
}

pub fn ack_wait_outcome(
    poll: ChannelPoll,
    read: &ChannelRead,
    supported_version: u32,
    pending: &PendingRegistration,
) -> (r: Result<(), SessionError>)
    ensures
        r == spec_ack_wait_outcome(poll, *read, supported_version, *pending),
{
    match poll {
        ChannelPoll::TimedOut => Err(SessionError::WorkerTimedOut),
        ChannelPoll::Failed => Err(SessionError::WorkerIoFailed),
        ChannelPoll::Ready { signal, readable, hangup } => {
            if signal {
                return Err(SessionError::AuthenticatedSessionFailed);
            }
            if readable {
                match read {
                    ChannelRead::SetupFailed(e) => {
                        return Err(*e);
                    },
                    ChannelRead::Received(envelope) => {
                        return ack_verdict(envelope, supported_version, pending);
                    },
                    ChannelRead::ReadFailed(e) => {
                        if !hangup {
                            return Err(*e);
                        }
                    },
                    ChannelRead::NotRead => {},
                }
            }
            if hangup {
                Err(SessionError::AuthenticatedSessionFailed)
            } else {
                Err(SessionError::WorkerIoFailed)
            }
        },
    }
}

/// The release the worker asked the supervisor for.
#[derive(Debug, Clone, PartialEq, Eq)]
pub struct PendingRelease {
    pub worker_id: String,
    pub worker_pid: u32,
    pub registration_nonce: String,
    pub release_nonce: String,
}

/// Whether the four correlating fields of a reply repeat the request.
pub open spec fn spec_release_fields_match(
    worker_id: String,
    pid: u32,
    registration_nonce: String,
    release_nonce: String,
    pending: PendingRelease,
) -> bool {
    &&& worker_id@ == pending.worker_id@
    &&& pid == pending.worker_pid
    &&& registration_nonce@ == pending.registration_nonce@
    &&& release_nonce@ == pending.release_nonce@
}

/// The verdict on the reply to a release request: `PayloadScopeReleased`
/// or `PayloadScopeRecoveryRequired` of the supported version, repeating
/// this worker, its pid and both nonces; anything else is a protocol
/// failure.
pub open spec fn spec_release_verdict(
    envelope: ControlEnvelope,
    supported_version: u32,
    pending: PendingRelease,
) -> Result<PayloadScopeReleaseOutcome, SessionError> {
    if envelope.version != supported_version {
        Err(SessionError::WorkerProtocolFailed)
    } else {
        match envelope.message {
            ControlMessage::PayloadScopeReleased {
                worker_id,
                expected_worker_pid,
                registration_nonce,
                release_nonce,
            } => if spec_release_fields_match(
                worker_id,
                expected_worker_pid,
                registration_nonce,
                release_nonce,
                pending,
            ) {
                Ok(PayloadScopeReleaseOutcome::Released)
            } else {
                Err(SessionError::WorkerProtocolFailed)
            },
            ControlMessage::PayloadScopeRecoveryRequired {
                worker_id,
                expected_worker_pid,
                registration_nonce,
                release_nonce,
            } => if spec_release_fields_match(
                worker_id,
                expected_worker_pid,
                registration_nonce,
                release_nonce,
                pending,
            ) {
                Ok(PayloadScopeReleaseOutcome::RecoveryRequired)
            } else {
                Err(SessionError::WorkerProtocolFailed)
            },
            _ => Err(SessionError::WorkerProtocolFailed),
        }
    }
}

fn release_fields_match(
    worker_id: &String,
    pid: u32,
    registration_nonce: &String,
    release_nonce: &String,
    pending: &PendingRelease,
) -> (r: bool)
    ensures
        r == spec_release_fields_match(
            *worker_id,
            pid,
            *registration_nonce,
            *release_nonce,
            *pending,
        ),
{
    text_equal(worker_id.as_str(), pending.worker_id.as_str()) && pid == pending.worker_pid
        && text_equal(registration_nonce.as_str(), pending.registration_nonce.as_str())
        && text_equal(release_nonce.as_str(), pending.release_nonce.as_str())
}

pub fn release_verdict(
    envelope: &ControlEnvelope,
    supported_version: u32,
    pending: &PendingRelease,
) -> (r: Result<PayloadScopeReleaseOutcome, SessionError>)
    ensures
        r == spec_release_verdict(*envelope, supported_version, *pending),
{
    if envelope.version != supported_version {
        return Err(SessionError::WorkerProtocolFailed);
    }
    match &envelope.message {
        ControlMessage::PayloadScopeReleased {
            worker_id,
            expected_worker_pid,
            registration_nonce,
            release_nonce,
        } => {
            if release_fields_match(
                worker_id,
                *expected_worker_pid,
                registration_nonce,
                release_nonce,
                pending,
            ) {
                Ok(PayloadScopeReleaseOutcome::Released)
            } else {
                Err(SessionError::WorkerProtocolFailed)
            }
        },
        ControlMessage::PayloadScopeRecoveryRequired {
            worker_id,
            expected_worker_pid,
            registration_nonce,
            release_nonce,
        } => {
            if release_fields_match(
                worker_id,
                *expected_worker_pid,
                registration_nonce,
                release_nonce,
                pending,
            ) {
                Ok(PayloadScopeReleaseOutcome::RecoveryRequired)
            } else {
                Err(SessionError::WorkerProtocolFailed)
            }
        },
        _ => Err(SessionError::WorkerProtocolFailed),
    }
}

/// The outcome of waiting for the reply to a release request: it must
/// arrive in time and be readable; a hang-up is an I/O failure.
pub open spec fn spec_release_wait_outcome(
    poll: ChannelPoll,
    read: ChannelRead,
    supported_version: u32,
    pending: PendingRelease,
) -> Result<PayloadScopeReleaseOutcome, SessionError> {
    match poll {
        ChannelPoll::TimedOut => Err(SessionError::WorkerTimedOut),
        ChannelPoll::Failed => Err(SessionError::WorkerIoFailed),
        ChannelPoll::Ready { signal, readable, hangup } => if !readable {
            Err(SessionError::WorkerIoFailed)
        } else {
            match read {
                ChannelRead::Received(envelope) => spec_release_verdict(
                    envelope,
                    supported_version,
                    pending,
                ),
                ChannelRead::SetupFailed(e) => Err(e),
                ChannelRead::ReadFailed(e) => Err(e),
                ChannelRead::NotRead => Err(SessionError::WorkerIoFailed),
            }
        },
    }
}

pub fn release_wait_outcome(
    poll: ChannelPoll,
    read: &ChannelRead,
    supported_version: u32,
    pending: &PendingRelease,
) -> (r: Result<PayloadScopeReleaseOutcome, SessionError>)
    ensures
        r == spec_release_wait_outcome(poll, *read, supported_version, *pending),
{
    match poll {
        ChannelPoll::TimedOut => Err(SessionError::WorkerTimedOut),
        ChannelPoll::Failed => Err(SessionError::WorkerIoFailed),
        ChannelPoll::Ready { signal, readable, hangup } => {
            if !readable {
                return Err(SessionError::WorkerIoFailed);
            }
            match read {
                ChannelRead::Received(envelope) => release_verdict(
                    envelope,
                    supported_version,
                    pending,
                ),
                ChannelRead::SetupFailed(e) => Err(*e),
                ChannelRead::ReadFailed(e) => Err(*e),
                ChannelRead::NotRead => Err(SessionError::WorkerIoFailed),
            }
        },
    }
}

/// How reading the worker's request went.
#[derive(Debug, Clone, Copy, PartialEq, Eq, Structural)]
pub enum RequestRead {
    /// A request of this version arrived.
    Arrived { version: u32 },
    /// The bytes were no valid request.
    Invalid,
    /// The read failed otherwise.
    Failed,
}

/// Whether the worker takes up a request: an unreadable request is
/// `InvalidRequest`, a failed read `InternalError`, another protocol
/// version `UnsupportedVersion`.
pub fn admit_request(read: RequestRead, supported_version: u32) -> (r: Result<(), RejectionCode>)
    ensures
        r == (match read {
            RequestRead::Invalid => Err(RejectionCode::InvalidRequest),
            RequestRead::Failed => Err(RejectionCode::InternalError),
            RequestRead::Arrived { version } => if version == supported_version {
                Ok(())
            } else {
                Err(RejectionCode::UnsupportedVersion)
            },
        }),
{
    match read {
        RequestRead::Invalid => Err(RejectionCode::InvalidRequest),
        RequestRead::Failed => Err(RejectionCode::InternalError),
        RequestRead::Arrived { version } => {
            if version == supported_version {
                Ok(())
            } else {
                Err(RejectionCode::UnsupportedVersion)
            }
        },
    }
}

/// Whether a PAM session request with a dedicated supervisor channel may
/// go on: the channel's peer must be the expected launcher. Without a
/// control path there is no channel to check.
pub fn admit_pam_request(has_control_path: bool, peer_matches: bool) -> (r: Result<(), RejectionCode>)
    ensures
        r == (if has_control_path && !peer_matches {
            Err(RejectionCode::InvalidRequest)
        } else {
            Ok(())
        }),
{
    if has_control_path && !peer_matches {
        Err(RejectionCode::InvalidRequest)
    } else {
        Ok(())
    }
}

/// An admitted worker request, by what its answer depends on.
#[derive(Debug, Clone, Copy, PartialEq, Eq, Structural)]
pub enum AdmittedRequest {
    /// A request to prepare a session without running it.
    PrepareSession,
    /// A PAM session, with or without a dedicated supervisor channel, and
    /// whether the channel's peer is the expected launcher.
    PamSession { has_control_path: bool, peer_matches: bool },
}

/// What the worker does with an admitted request.
#[derive(Debug, Clone, Copy, PartialEq, Eq, Structural)]
pub enum RequestDispatch {
    /// Answer `Ready` with the requested user and session.
    AnswerReady,
    /// Answer `Rejected` with this code.
    Reject(RejectionCode),
    /// Announce `Preparing` on the channel, then run the PAM session.
    AnnounceThenRun,
    /// Run the PAM session.
    Run,
}

/// The dispatch of an admitted request: a prepare request is answered
/// `Ready` at once; a PAM session with a supervisor channel whose peer is
/// not the launcher is rejected, one with a matching peer is announced as
/// `Preparing` first, and one without a channel simply runs.
pub fn dispatch_request(request: AdmittedRequest) -> (r: RequestDispatch)
    ensures
        r == (match request {
            AdmittedRequest::PrepareSession => RequestDispatch::AnswerReady,
            AdmittedRequest::PamSession { has_control_path, peer_matches } => if !has_control_path {
                RequestDispatch::Run
            } else if !peer_matches {
                RequestDispatch::Reject(RejectionCode::InvalidRequest)
            } else {
                RequestDispatch::AnnounceThenRun
            },
        }),
{
    match request {
        AdmittedRequest::PrepareSession => RequestDispatch::AnswerReady,
        AdmittedRequest::PamSession { has_control_path, peer_matches } => {
            match admit_pam_request(has_control_path, peer_matches) {
                Err(code) => RequestDispatch::Reject(code),
                Ok(()) => if has_control_path {
                    RequestDispatch::AnnounceThenRun
                } else {
                    RequestDispatch::Run
                },
            }
        },
    }
}

/// The credentials of the peer of a Unix socket, as `SO_PEERCRED` gives them.
#[derive(Debug, Clone, Copy, PartialEq, Eq, Structural)]
pub struct PeerCredentials {
    pub pid: i32,
    pub uid: u32,
    pub gid: u32,
}

/// The peer of the dedicated supervisor channel is the expected launcher:
/// its credentials could be read, with the expected user and process id.
pub fn supervisor_peer_matches(peer: Option<PeerCredentials>, expected_uid: u32, expected_pid: u32) -> (r: bool)
    ensures
        r == (peer is Some && peer->0.uid == expected_uid && peer->0.pid as u32 == expected_pid),
{
    match peer {
        Some(credentials) => credentials.uid == expected_uid && credentials.pid as u32
            == expected_pid,
        None => false,
    }
}

/// A control connection is taken up only from a peer of the expected user.
pub fn peer_has_uid(peer: Option<PeerCredentials>, expected_uid: u32) -> (r: bool)
    ensures
        r == (peer is Some && peer->0.uid == expected_uid),
{
    match peer {
        Some(credentials) => credentials.uid == expected_uid,
        None => false,
    }
}

} // verus!
