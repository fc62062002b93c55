use niralis_session_worker::control::{
    ack_verdict, ack_wait_outcome, admit_pam_request, admit_request, dispatch_request,
    peer_has_uid, AdmittedRequest, RequestDispatch,
    release_verdict, release_wait_outcome, supervisor_peer_matches, terminate_requested,
    ChannelPoll, ChannelRead, ControlEnvelope, ControlMessage, PeerCredentials,
    PendingRegistration, PendingRelease, RequestRead, RunningSession, SessionError,
};
use niralis_session_worker::fixture::{
    emit_fixture_event, fixture_command_accepted, fixture_grace_millis, fixture_logind_identity,
    launch_phase_name, FixtureMode,
};
use niralis_session_worker::launch::{
    launch_step, release_follow_up, LaunchCleanup, LaunchDirective, LaunchStage,
    PayloadScopeReleaseOutcome, RejectionCode, ReleaseFollowUp, SessionFailureCode, StepOutcome,
    WorkerLaunchPhase,
};
use niralis_session_worker::logind::{LogindSessionId, LogindSessionIdentity};
use niralis_session_worker::runtime::{
    check_runtime_dir, valid_logind_identity, valid_terminal_proof, PathFacts,
    RuntimeDirValidationError, RuntimeDirValidator, SessionChildTerminalProof,
    SessionProcessIdentity, StubRuntimeDirValidator,
};
use niralis_session_worker::payload_scope::PayloadScopeError;
use niralis_session_worker::session_wait::{
    deadline_decision, legacy_control_decision, wake_up_decision, BoundaryObservation,
    ControlObservation, DeadlineDecision, LeaderObservation, LegacyControlDecision, PollState,
    SignalObservation, TimerObservation, WakeUp, WakeUpDecision,
};
use niralis_session_worker::payload_scope::PayloadScopeIdentity;
use niralis_session_worker::termination::{
    finalization_step, finalize_cooperative_session, BoundaryEmptyProof, CooperativeResources,
    FinalizationRequest,
    admit_cause, cause_event, cooperative_finalization_result, select_trigger, signal_name,
    signals_trigger, CauseAdmission, GracefulTerminationError, LeaderExit, TerminationCause,
    WorkerTerminationSignal,
};

fn identity() -> LogindSessionIdentity {
    LogindSessionIdentity {
        id: LogindSessionId::new("c1".to_owned()).unwrap(),
        uid: 1000,
        session_type: "wayland".to_owned(),
        class: "user".to_owned(),
        desktop: Some("niri".to_owned()),
        seat: Some("seat0".to_owned()),
        vtnr: Some(2),
    }
}

#[test]
fn logind_seat_and_vt_are_bound_to_the_owned_terminal() {
    let identity = identity();
    assert!(valid_logind_identity(
        &identity, 1000, "wayland", "niri", "seat0", 2
    ));
    assert!(!valid_logind_identity(
        &identity, 1000, "wayland", "niri", "seat1", 2
    ));
    assert!(!valid_logind_identity(
        &identity, 1000, "wayland", "niri", "seat0", 3
    ));
}

#[test]
fn logind_identity_checks_user_type_class_and_desktop() {
    let mut value = identity();
    assert!(!valid_logind_identity(&value, 1001, "wayland", "niri", "seat0", 2));
    assert!(!valid_logind_identity(&value, 1000, "x11", "niri", "seat0", 2));
    assert!(!valid_logind_identity(&value, 1000, "wayland", "gnome", "seat0", 2));
    value.desktop = None;
    assert!(valid_logind_identity(&value, 1000, "wayland", "gnome", "seat0", 2));
    value.class = "greeter".to_owned();
    assert!(!valid_logind_identity(&value, 1000, "wayland", "gnome", "seat0", 2));
    let mut seatless = identity();
    seatless.seat = None;
    assert!(!valid_logind_identity(&seatless, 1000, "wayland", "niri", "seat0", 2));
}

fn facts(is_symlink: bool, is_dir: bool, uid: u32, mode: u32) -> PathFacts {
    PathFacts {
        is_symlink,
        is_dir,
        uid,
        mode,
    }
}

#[test]
fn rejects_relative_and_symlink_runtime_paths() {
    let dir = facts(false, true, 1000, 0o40700);
    assert_eq!(
        check_runtime_dir(b"relative", Some(dir), Some(dir), 1000),
        Err(RuntimeDirValidationError::InvalidPath)
    );
    assert_eq!(
        check_runtime_dir(
            b"/run/user/1000",
            Some(facts(true, false, 1000, 0o120777)),
            Some(dir),
            1000
        ),
        Err(RuntimeDirValidationError::InvalidMetadata)
    );
}

#[test]
fn validates_existing_owned_mode_0700_directory() {
    let dir = facts(false, true, 1000, 0o40700);
    assert_eq!(check_runtime_dir(b"/run/user/1000", Some(dir), Some(dir), 1000), Ok(()));
    assert_eq!(
        check_runtime_dir(b"/run/user/1000", None, Some(dir), 1000),
        Err(RuntimeDirValidationError::InvalidMetadata)
    );
    assert_eq!(
        check_runtime_dir(b"/run/user/1000", Some(dir), None, 1000),
        Err(RuntimeDirValidationError::InvalidMetadata)
    );
    assert_eq!(
        check_runtime_dir(b"/run/user/1000", Some(dir), Some(dir), 1001),
        Err(RuntimeDirValidationError::WrongOwnerOrMode)
    );
    let group_readable = facts(false, true, 1000, 0o40750);
    assert_eq!(
        check_runtime_dir(b"/run/user/1000", Some(dir), Some(group_readable), 1000),
        Err(RuntimeDirValidationError::WrongOwnerOrMode)
    );
    assert_eq!(StubRuntimeDirValidator.validate(b"relative", 0), Ok(()));
}

fn report() -> (SessionProcessIdentity, Option<SessionChildTerminalProof>) {
    (
        SessionProcessIdentity {
            pid: 40,
            sid: 40,
            pgid: 40,
        },
        Some(SessionChildTerminalProof {
            seat: "seat0".to_owned(),
            vtnr: 2,
            fd: 3,
            device_major: 4,
            device_minor: 2,
            controlling_sid: 40,
            foreground_pgid: 40,
        }),
    )
}

#[test]
fn terminal_proof_must_name_the_owned_vt() {
    let (process, proof) = report();
    assert!(valid_terminal_proof(&proof, &process, "seat0", 2));
    assert!(!valid_terminal_proof(&proof, &process, "seat1", 2));
    assert!(!valid_terminal_proof(&proof, &process, "seat0", 3));
    assert!(!valid_terminal_proof(&None, &process, "seat0", 2));
    let mut other_fd = proof.clone();
    other_fd.as_mut().unwrap().fd = 4;
    assert!(!valid_terminal_proof(&other_fd, &process, "seat0", 2));
    let mut background = proof.clone();
    background.as_mut().unwrap().foreground_pgid = 41;
    assert!(!valid_terminal_proof(&background, &process, "seat0", 2));
}

fn run(outcomes: &[StepOutcome], registration: bool) -> (LaunchStage, LaunchDirective) {
    let mut stage = LaunchStage::Plan;
    for outcome in outcomes {
        match launch_step(stage, *outcome, registration) {
            LaunchDirective::Continue(next) => stage = next,
            other => return (stage, other),
        }
    }
    (stage, launch_step(stage, StepOutcome::Passed, registration))
}

#[test]
fn a_launch_where_every_stage_passes_starts() {
    let mut stage = LaunchStage::Plan;
    let mut steps = 0;
    loop {
        match launch_step(stage, StepOutcome::Passed, true) {
            LaunchDirective::Continue(next) => {
                stage = next;
                steps += 1;
            }
            LaunchDirective::Start => break,
            other => panic!("unexpected {other:?}"),
        }
    }
    assert_eq!(stage, LaunchStage::Started);
    let mut unregistered = LaunchStage::Plan;
    let mut unregistered_steps = 0;
    while let LaunchDirective::Continue(next) = launch_step(unregistered, StepOutcome::Passed, false) {
        unregistered = next;
        unregistered_steps += 1;
    }
    assert_eq!(steps, unregistered_steps + 4);
}

#[test]
fn early_failures_report_their_codes() {
    assert_eq!(
        launch_step(LaunchStage::Plan, StepOutcome::Failed, true),
        LaunchDirective::Fail(SessionFailureCode::LaunchSpecMalformed, LaunchCleanup::Nothing)
    );
    assert_eq!(
        launch_step(LaunchStage::Watchdog, StepOutcome::Failed, true),
        LaunchDirective::Reject(RejectionCode::RealGraphicalSessionNotAuthorized)
    );
    assert_eq!(
        launch_step(LaunchStage::LogindMembership, StepOutcome::AlreadyInSession, true),
        LaunchDirective::Fail(
            SessionFailureCode::WorkerAlreadyInLogindSession,
            LaunchCleanup::Nothing
        )
    );
    assert_eq!(
        launch_step(LaunchStage::LogindMembership, StepOutcome::Failed, true),
        LaunchDirective::Continue(LaunchStage::ControlListener)
    );
    assert_eq!(
        launch_step(LaunchStage::Authentication, StepOutcome::LoginRejected, true),
        LaunchDirective::AuthenticationFailed
    );
    assert_eq!(
        launch_step(LaunchStage::Authentication, StepOutcome::AuthInfrastructureFailed, true),
        LaunchDirective::Reject(RejectionCode::InternalError)
    );
    assert_eq!(
        launch_step(LaunchStage::Authentication, StepOutcome::IdentityUnavailable, true),
        LaunchDirective::Fail(SessionFailureCode::PamIdentityUnavailable, LaunchCleanup::Nothing)
    );
    assert_eq!(
        launch_step(LaunchStage::SessionOpen, StepOutcome::Panicked, true),
        LaunchDirective::Fail(SessionFailureCode::InternalPanic, LaunchCleanup::Nothing)
    );
    assert_eq!(
        launch_step(LaunchStage::SessionIdMatch, StepOutcome::Failed, true),
        LaunchDirective::Fail(SessionFailureCode::LogindSessionIdMismatch, LaunchCleanup::Nothing)
    );
}

#[test]
fn failures_with_a_pending_handoff_abort_it() {
    let (stage, directive) = run(
        &[StepOutcome::Passed; 20]
            .iter()
            .copied()
            .chain([StepOutcome::Passed, StepOutcome::Signaled])
            .collect::<Vec<_>>(),
        true,
    );
    assert_eq!(stage, LaunchStage::SignalBeforeScope);
    assert_eq!(
        directive,
        LaunchDirective::Fail(SessionFailureCode::SessionChildFailed, LaunchCleanup::AbortHandoff)
    );
    assert_eq!(
        launch_step(LaunchStage::ChildLogind, StepOutcome::Failed, true),
        LaunchDirective::Fail(SessionFailureCode::LogindFailed, LaunchCleanup::AbortHandoff)
    );
    assert_eq!(
        launch_step(LaunchStage::RegistrationAck, StepOutcome::Failed, true),
        LaunchDirective::Fail(
            SessionFailureCode::SessionChildFailed,
            LaunchCleanup::AbortAndReleaseScope
        )
    );
    assert_eq!(
        launch_step(LaunchStage::RegistrationSent, StepOutcome::Failed, true),
        LaunchDirective::Abandon(LaunchCleanup::AbortAndCleanupScope)
    );
    assert_eq!(
        launch_step(LaunchStage::CommitExec, StepOutcome::Failed, true),
        LaunchDirective::Fail(SessionFailureCode::CommitFailed, LaunchCleanup::CleanupScope)
    );
    assert_eq!(
        launch_step(LaunchStage::SelinuxVerification, StepOutcome::Failed, false),
        LaunchDirective::Fail(
            SessionFailureCode::SessionChildFailed,
            LaunchCleanup::TerminateAndCleanupScope
        )
    );
    assert_eq!(
        launch_step(LaunchStage::ScopePreparation, StepOutcome::Passed, false),
        LaunchDirective::Continue(LaunchStage::SignalBeforeCommit)
    );
}

#[test]
fn release_is_reported_only_when_confirmed_and_unpinned() {
    assert_eq!(
        release_follow_up(Some(PayloadScopeReleaseOutcome::Released), true),
        ReleaseFollowUp::Report
    );
    assert_eq!(
        release_follow_up(Some(PayloadScopeReleaseOutcome::Released), false),
        ReleaseFollowUp::HoldForRecovery
    );
    assert_eq!(
        release_follow_up(Some(PayloadScopeReleaseOutcome::RecoveryRequired), true),
        ReleaseFollowUp::HoldForRecovery
    );
    assert_eq!(release_follow_up(None, true), ReleaseFollowUp::HoldForRecovery);
}

const VERSION: u32 = 1;

fn pending() -> PendingRegistration {
    PendingRegistration {
        worker_id: "worker-test".to_owned(),
        worker_pid: 42,
        registration_nonce: "nonce-test".to_owned(),
    }
}

fn registered(worker_id: &str, pid: u32, nonce: &str) -> ControlEnvelope {
    ControlEnvelope {
        version: VERSION,
        message: ControlMessage::PayloadScopeRegistered {
            worker_id: worker_id.to_owned(),
            expected_worker_pid: pid,
            registration_nonce: nonce.to_owned(),
        },
    }
}

#[test]
fn correlated_ack_round_trips_before_started() {
    let ready = ChannelPoll::Ready {
        signal: false,
        readable: true,
        hangup: false,
    };
    let read = ChannelRead::Received(registered("worker-test", 42, "nonce-test"));
    assert_eq!(ack_wait_outcome(ready, &read, VERSION, &pending()), Ok(()));
}

#[test]
fn divergent_ack_is_rejected() {
    let ready = ChannelPoll::Ready {
        signal: false,
        readable: true,
        hangup: false,
    };
    let read = ChannelRead::Received(registered("other-worker", 42, "nonce-test"));
    assert_eq!(
        ack_wait_outcome(ready, &read, VERSION, &pending()),
        Err(SessionError::WorkerProtocolFailed)
    );
    assert_eq!(
        ack_verdict(&registered("worker-test", 43, "nonce-test"), VERSION, &pending()),
        Err(SessionError::WorkerProtocolFailed)
    );
    assert_eq!(
        ack_verdict(&registered("worker-test", 42, "nonce-other"), VERSION, &pending()),
        Err(SessionError::WorkerProtocolFailed)
    );
    let mut old = registered("worker-test", 42, "nonce-test");
    old.version = VERSION + 1;
    assert_eq!(
        ack_verdict(&old, VERSION, &pending()),
        Err(SessionError::WorkerProtocolFailed)
    );
}

#[test]
fn complete_ack_is_drained_before_hup_is_classified() {
    let hung_up = ChannelPoll::Ready {
        signal: false,
        readable: true,
        hangup: true,
    };
    let read = ChannelRead::Received(registered("worker-test", 42, "nonce-test"));
    assert_eq!(ack_wait_outcome(hung_up, &read, VERSION, &pending()), Ok(()));
    assert_eq!(
        ack_wait_outcome(
            hung_up,
            &ChannelRead::ReadFailed(SessionError::WorkerIoFailed),
            VERSION,
            &pending()
        ),
        Err(SessionError::AuthenticatedSessionFailed)
    );
    let readable = ChannelPoll::Ready {
        signal: false,
        readable: true,
        hangup: false,
    };
    assert_eq!(
        ack_wait_outcome(
            readable,
            &ChannelRead::ReadFailed(SessionError::WorkerIoFailed),
            VERSION,
            &pending()
        ),
        Err(SessionError::WorkerIoFailed)
    );
}

#[test]
fn ack_wait_timeouts_and_signals_cancel_the_launch() {
    assert_eq!(
        ack_wait_outcome(ChannelPoll::TimedOut, &ChannelRead::NotRead, VERSION, &pending()),
        Err(SessionError::WorkerTimedOut)
    );
    assert_eq!(
        ack_wait_outcome(ChannelPoll::Failed, &ChannelRead::NotRead, VERSION, &pending()),
        Err(SessionError::WorkerIoFailed)
    );
    let signaled = ChannelPoll::Ready {
        signal: true,
        readable: true,
        hangup: false,
    };
    let read = ChannelRead::Received(registered("worker-test", 42, "nonce-test"));
    assert_eq!(
        ack_wait_outcome(signaled, &read, VERSION, &pending()),
        Err(SessionError::AuthenticatedSessionFailed)
    );
}

fn release_pending() -> PendingRelease {
    PendingRelease {
        worker_id: "worker-test".to_owned(),
        worker_pid: 42,
        registration_nonce: "nonce-test".to_owned(),
        release_nonce: "00ff".to_owned(),
    }
}

#[test]
fn release_replies_must_repeat_both_nonces() {
    let released = ControlEnvelope {
        version: VERSION,
        message: ControlMessage::PayloadScopeReleased {
            worker_id: "worker-test".to_owned(),
            expected_worker_pid: 42,
            registration_nonce: "nonce-test".to_owned(),
            release_nonce: "00ff".to_owned(),
        },
    };
    assert_eq!(
        release_verdict(&released, VERSION, &release_pending()),
        Ok(PayloadScopeReleaseOutcome::Released)
    );
    let recovery = ControlEnvelope {
        version: VERSION,
        message: ControlMessage::PayloadScopeRecoveryRequired {
            worker_id: "worker-test".to_owned(),
            expected_worker_pid: 42,
            registration_nonce: "nonce-test".to_owned(),
            release_nonce: "00ff".to_owned(),
        },
    };
    assert_eq!(
        release_verdict(&recovery, VERSION, &release_pending()),
        Ok(PayloadScopeReleaseOutcome::RecoveryRequired)
    );
    let stale = ControlEnvelope {
        version: VERSION,
        message: ControlMessage::PayloadScopeReleased {
            worker_id: "worker-test".to_owned(),
            expected_worker_pid: 42,
            registration_nonce: "nonce-test".to_owned(),
            release_nonce: "0000".to_owned(),
        },
    };
    assert_eq!(
        release_verdict(&stale, VERSION, &release_pending()),
        Err(SessionError::WorkerProtocolFailed)
    );
    let ready = ChannelPoll::Ready {
        signal: false,
        readable: false,
        hangup: true,
    };
    assert_eq!(
        release_wait_outcome(ready, &ChannelRead::NotRead, VERSION, &release_pending()),
        Err(SessionError::WorkerIoFailed)
    );
}

#[test]
fn terminate_requests_must_name_this_session() {
    let running = RunningSession {
        worker_id: "w".to_owned(),
        worker_pid: 10,
        session_pid: 20,
        session_pgid: 20,
    };
    let request = |pgid: u32| ControlEnvelope {
        version: VERSION,
        message: ControlMessage::Terminate {
            worker_id: "w".to_owned(),
            expected_worker_pid: 10,
            expected_session_pid: 20,
            expected_session_pgid: pgid,
        },
    };
    assert!(terminate_requested(&request(20), VERSION, &running));
    assert!(!terminate_requested(&request(21), VERSION, &running));
    assert!(!terminate_requested(&request(20), VERSION + 1, &running));
    assert!(!terminate_requested(
        &registered("w", 10, "n"),
        VERSION,
        &running
    ));
}

#[test]
fn requests_are_admitted_by_version_and_peer() {
    assert_eq!(admit_request(RequestRead::Arrived { version: 3 }, 3), Ok(()));
    assert_eq!(
        admit_request(RequestRead::Arrived { version: 2 }, 3),
        Err(RejectionCode::UnsupportedVersion)
    );
    assert_eq!(
        admit_request(RequestRead::Invalid, 3),
        Err(RejectionCode::InvalidRequest)
    );
    assert_eq!(
        admit_request(RequestRead::Failed, 3),
        Err(RejectionCode::InternalError)
    );
    assert_eq!(admit_pam_request(false, false), Ok(()));
    assert_eq!(admit_pam_request(true, true), Ok(()));
    assert_eq!(
        admit_pam_request(true, false),
        Err(RejectionCode::InvalidRequest)
    );
}

#[test]
fn triggers_follow_their_precedence() {
    assert_eq!(
        select_trigger(
            Some(LeaderExit::ExitedZero),
            Some(WorkerTerminationSignal::Sigterm),
            true,
            true,
            true
        ),
        Some(TerminationCause::LeaderExited(LeaderExit::ExitedZero))
    );
    assert_eq!(
        select_trigger(None, Some(WorkerTerminationSignal::Sighup), true, false, true),
        Some(TerminationCause::WorkerSignal(WorkerTerminationSignal::Sighup))
    );
    assert_eq!(
        select_trigger(None, None, false, true, true),
        Some(TerminationCause::SupervisorDisconnected)
    );
    assert_eq!(
        select_trigger(None, None, false, false, true),
        Some(TerminationCause::InternalTerminateRequest)
    );
    assert_eq!(select_trigger(None, None, false, false, false), None);
}

#[test]
fn the_first_cause_stands() {
    let first = TerminationCause::WorkerSignal(WorkerTerminationSignal::Sigint);
    assert_eq!(admit_cause(None, Some(first)), CauseAdmission::Begin(first));
    assert_eq!(
        admit_cause(Some(first), Some(TerminationCause::SupervisorDisconnected)),
        CauseAdmission::Duplicate
    );
    assert_eq!(admit_cause(Some(first), None), CauseAdmission::NoTrigger);
}

#[test]
fn signals_are_read_in_order_and_unknown_ones_fail() {
    assert_eq!(
        signals_trigger(&[libc::SIGINT, libc::SIGTERM]),
        Ok(Some(WorkerTerminationSignal::Sigint))
    );
    assert_eq!(signals_trigger(&[]), Ok(None));
    assert_eq!(
        signals_trigger(&[libc::SIGTERM, libc::SIGUSR1]),
        Err(GracefulTerminationError::Signal)
    );
    assert_eq!(
        WorkerTerminationSignal::from_raw(libc::SIGHUP),
        Some(WorkerTerminationSignal::Sighup)
    );
    assert_eq!(signal_name(libc::SIGTERM), "SIGTERM");
    assert_eq!(signal_name(libc::SIGUSR2), "UNKNOWN");
    assert_eq!(
        cause_event(&TerminationCause::LeaderExited(LeaderExit::Exited(3))),
        "Cause:LeaderExited"
    );
    assert_eq!(
        cause_event(&TerminationCause::WorkerSignal(WorkerTerminationSignal::Sigterm)),
        "Cause:Sigterm"
    );
}

#[test]
fn cooperative_finalization_succeeds_only_on_a_clean_exit() {
    assert!(cooperative_finalization_result(true, true, LeaderExit::ExitedZero));
    assert!(!cooperative_finalization_result(true, true, LeaderExit::Exited(1)));
    assert!(!cooperative_finalization_result(false, true, LeaderExit::ExitedZero));
    assert!(!cooperative_finalization_result(true, false, LeaderExit::ExitedZero));
    assert_eq!(
        LeaderExit::from_parts(None, Some(libc::SIGKILL)),
        LeaderExit::Signaled(libc::SIGKILL)
    );
}

#[test]
fn fixture_events_are_single_bounded_lines() {
    assert_eq!(emit_fixture_event("Running"), Some(b"Running\n".to_vec()));
    assert_eq!(emit_fixture_event("a\nb"), None);
    assert_eq!(emit_fixture_event(&"x".repeat(192)).map(|v| v.len()), Some(193));
    assert_eq!(emit_fixture_event(&"x".repeat(193)), None);
}

#[test]
fn fixture_commands_must_match_exactly() {
    let line = b"ContinuePhase:ScopePinnedBeforeAck\n";
    assert!(fixture_command_accepted(
        line.len(),
        line,
        "ContinuePhase:ScopePinnedBeforeAck"
    ));
    assert!(!fixture_command_accepted(0, line, "ContinuePhase:ScopePinnedBeforeAck"));
    assert!(!fixture_command_accepted(
        line.len() - 1,
        &line[..line.len() - 1],
        "ContinuePhase:ScopePinnedBeforeAck"
    ));
    assert!(!fixture_command_accepted(line.len(), line, "ContinuePhase:Other"));
    let long = vec![b'x'; 65];
    assert!(!fixture_command_accepted(65, &long, &"x".repeat(64)));
}

#[test]
fn fixture_modes_hold_at_their_barriers() {
    assert_eq!(FixtureMode::parse("barrier-b"), Some(FixtureMode::BarrierB));
    assert_eq!(FixtureMode::parse("unknown"), None);
    assert_eq!(
        FixtureMode::BarrierCRecovery.barrier(),
        Some(WorkerLaunchPhase::AckReceivedBeforeCommitExec)
    );
    assert!(FixtureMode::BarrierA.requires_registration());
    assert!(!FixtureMode::Cooperative.requires_registration());
    assert!(FixtureMode::BarrierA.holds_at(WorkerLaunchPhase::PendingHandoffBeforeScope));
    assert!(!FixtureMode::BarrierA.holds_at(WorkerLaunchPhase::ScopePinnedBeforeAck));
    assert_eq!(
        launch_phase_name(WorkerLaunchPhase::ScopePinnedBeforeAck),
        "ScopePinnedBeforeAck"
    );
    let identity = fixture_logind_identity().unwrap();
    assert_eq!(identity.id.as_str(), "fixture-session");
    assert_eq!(identity.vtnr, Some(1));
}

#[test]
fn supervisor_peer_must_be_the_expected_launcher() {
    let peer = PeerCredentials {
        pid: 77,
        uid: 0,
        gid: 0,
    };
    assert!(supervisor_peer_matches(Some(peer), 0, 77));
    assert!(!supervisor_peer_matches(Some(peer), 1000, 77));
    assert!(!supervisor_peer_matches(Some(peer), 0, 78));
    assert!(!supervisor_peer_matches(None, 0, 77));
    assert!(peer_has_uid(Some(peer), 0));
    assert!(!peer_has_uid(Some(peer), 1));
    assert!(!peer_has_uid(None, 0));
}

#[test]
fn fixture_grace_is_saturated_and_positive() {
    assert_eq!(fixture_grace_millis(250), 250);
    assert_eq!(fixture_grace_millis(0), 1);
    assert_eq!(fixture_grace_millis(u128::MAX), u64::MAX);
}

fn quiet() -> WakeUp {
    WakeUp {
        poll: PollState::Ready,
        leader: LeaderObservation::NotReady,
        boundary: BoundaryObservation::NotReady,
        signals: SignalObservation::NotReady,
        control_hangup: false,
        supervisor_event: false,
        control: ControlObservation::NotReady,
    }
}

fn running() -> RunningSession {
    RunningSession {
        worker_id: "w".to_owned(),
        worker_pid: 10,
        session_pid: 20,
        session_pgid: 20,
    }
}

fn terminate_request() -> ControlObservation {
    ControlObservation::Request(ControlEnvelope {
        version: VERSION,
        message: ControlMessage::Terminate {
            worker_id: "w".to_owned(),
            expected_worker_pid: 10,
            expected_session_pid: 20,
            expected_session_pgid: 20,
        },
    })
}

#[test]
fn simultaneous_supervisor_disconnect_and_signal_is_single_lifecycle() {
    let mut wake = quiet();
    wake.signals = SignalObservation::Read(vec![libc::SIGTERM]);
    wake.supervisor_event = true;
    let first = wake_up_decision(&wake, VERSION, &running(), None);
    let cause = TerminationCause::WorkerSignal(WorkerTerminationSignal::Sigterm);
    assert_eq!(first, WakeUpDecision::Proceed(CauseAdmission::Begin(cause)));
    let again = wake_up_decision(&wake, VERSION, &running(), Some(cause));
    assert_eq!(again, WakeUpDecision::Proceed(CauseAdmission::Duplicate));
}

#[test]
fn authenticated_pidfd_and_terminate_share_one_poll_cycle() {
    let mut wake = quiet();
    wake.leader = LeaderObservation::Exited(LeaderExit::ExitedZero);
    wake.control = terminate_request();
    assert_eq!(
        wake_up_decision(&wake, VERSION, &running(), None),
        WakeUpDecision::Proceed(CauseAdmission::Begin(TerminationCause::LeaderExited(
            LeaderExit::ExitedZero
        )))
    );
    let mut request_only = quiet();
    request_only.control = terminate_request();
    assert_eq!(
        wake_up_decision(&request_only, VERSION, &running(), None),
        WakeUpDecision::Proceed(CauseAdmission::Begin(
            TerminationCause::InternalTerminateRequest
        ))
    );
}

#[test]
fn simultaneous_boundary_and_deadline_prefers_revalidated_candidate() {
    let mut wake = quiet();
    wake.boundary = BoundaryObservation::Terminal;
    wake.signals = SignalObservation::Read(vec![libc::SIGINT]);
    assert_eq!(
        wake_up_decision(&wake, VERSION, &running(), None),
        WakeUpDecision::BoundaryCandidate
    );
    assert_eq!(
        deadline_decision(TimerObservation::Expired),
        DeadlineDecision::DeadlineExpired
    );
}

#[test]
fn replacement_during_observation_is_recovery_required() {
    let mut wake = quiet();
    wake.boundary = BoundaryObservation::Failed(PayloadScopeError::UnitReplaced);
    assert_eq!(
        wake_up_decision(&wake, VERSION, &running(), None),
        WakeUpDecision::ScopeFailure(PayloadScopeError::UnitReplaced)
    );
}

#[test]
fn watch_failures_retain_ownership() {
    let mut wake = quiet();
    wake.poll = PollState::Interrupted;
    assert_eq!(wake_up_decision(&wake, VERSION, &running(), None), WakeUpDecision::Retry);
    wake.poll = PollState::Failed;
    assert_eq!(
        wake_up_decision(&wake, VERSION, &running(), None),
        WakeUpDecision::Infrastructure(GracefulTerminationError::Poll)
    );
    let mut reap = quiet();
    reap.leader = LeaderObservation::ReapFailed;
    assert_eq!(
        wake_up_decision(&reap, VERSION, &running(), None),
        WakeUpDecision::Infrastructure(GracefulTerminationError::LeaderReap)
    );
    let mut unknown = quiet();
    unknown.signals = SignalObservation::Read(vec![libc::SIGUSR1]);
    assert_eq!(
        wake_up_decision(&unknown, VERSION, &running(), None),
        WakeUpDecision::Infrastructure(GracefulTerminationError::Signal)
    );
    let mut stale = quiet();
    stale.control = ControlObservation::Request(registered("w", 10, "n"));
    assert_eq!(
        wake_up_decision(&stale, VERSION, &running(), None),
        WakeUpDecision::Infrastructure(GracefulTerminationError::Control)
    );
    let mut stranger = quiet();
    stranger.control = ControlObservation::PeerRejected;
    stranger.supervisor_event = true;
    assert_eq!(
        wake_up_decision(&stranger, VERSION, &running(), None),
        WakeUpDecision::Skip
    );
    assert_eq!(
        deadline_decision(TimerObservation::ReadFailed),
        DeadlineDecision::TimerFailed
    );
    assert_eq!(
        deadline_decision(TimerObservation::NotExpired),
        DeadlineDecision::KeepWaiting
    );
    assert_eq!(
        wake_up_decision(&quiet(), VERSION, &running(), None),
        WakeUpDecision::Proceed(CauseAdmission::NoTrigger)
    );
}

#[test]
fn legacy_watch_terminates_only_on_an_exact_request() {
    assert_eq!(
        legacy_control_decision(&terminate_request(), VERSION, &running()),
        LegacyControlDecision::Terminate
    );
    assert_eq!(
        legacy_control_decision(&ControlObservation::PeerRejected, VERSION, &running()),
        LegacyControlDecision::Ignore
    );
    assert_eq!(
        legacy_control_decision(&terminate_request(), VERSION + 1, &running()),
        LegacyControlDecision::Fail
    );
    assert_eq!(
        legacy_control_decision(&ControlObservation::ListenerMissing, VERSION, &running()),
        LegacyControlDecision::Fail
    );
}

struct Ordered {
    events: Vec<&'static str>,
    unref_fails: bool,
    close_fails: bool,
    vt_fails: bool,
}

impl CooperativeResources for Ordered {
    fn release_pin(&mut self) -> bool {
        self.events.push("unit_unref_attempted");
        !self.unref_fails
    }

    fn close_pam(&mut self) -> bool {
        self.events.push("pam_close_started");
        if !self.close_fails {
            self.events.push("pam_close_completed");
        }
        self.events.push("pam_dropped");
        !self.close_fails
    }

    fn release_terminal(&mut self) -> bool {
        self.events.push("vt_released");
        !self.vt_fails
    }
}

fn empty_proof(exit: LeaderExit) -> BoundaryEmptyProof {
    let identity = PayloadScopeIdentity {
        unit_name: "niralis-payload-00000000000000000000000000000000.scope".into(),
        invocation_id: "00000000000000000000000000000000".into(),
        expected_uid: 1000,
        logind_session_id: LogindSessionId::new("1".into()).unwrap(),
    };
    BoundaryEmptyProof::new(&identity, "/test", exit)
}

fn ordered(unref_fails: bool, close_fails: bool, vt_fails: bool) -> Ordered {
    Ordered {
        events: Vec::new(),
        unref_fails,
        close_fails,
        vt_fails,
    }
}

#[test]
fn cooperative_finalizer_orders_unref_pam_and_vt() {
    let mut resources = ordered(false, false, false);
    assert!(
        finalize_cooperative_session(&mut resources, &empty_proof(LeaderExit::ExitedZero)).is_ok()
    );
    assert_eq!(
        resources.events,
        [
            "unit_unref_attempted",
            "pam_close_started",
            "pam_close_completed",
            "pam_dropped",
            "vt_released"
        ]
    );
}

#[test]
fn unref_failure_does_not_keep_pam_or_vt_and_vt_failure_is_reported() {
    let mut resources = ordered(true, false, true);
    assert!(
        finalize_cooperative_session(&mut resources, &empty_proof(LeaderExit::ExitedZero))
            .is_err()
    );
    assert_eq!(
        resources.events,
        [
            "unit_unref_attempted",
            "pam_close_started",
            "pam_close_completed",
            "pam_dropped",
            "vt_released"
        ]
    );
}

#[test]
fn pam_close_failure_still_releases_vt_and_returns_failure() {
    let mut resources = ordered(false, true, false);
    assert_eq!(
        finalize_cooperative_session(&mut resources, &empty_proof(LeaderExit::ExitedZero)),
        Err(SessionError::AuthenticatedSessionFailed)
    );
    assert_eq!(
        resources.events,
        [
            "unit_unref_attempted",
            "pam_close_started",
            "pam_dropped",
            "vt_released"
        ]
    );
}

#[test]
fn unclean_leader_exit_fails_a_clean_finalization() {
    let mut resources = ordered(false, false, false);
    assert!(
        finalize_cooperative_session(&mut resources, &empty_proof(LeaderExit::Signaled(9)))
            .is_err()
    );
    assert_eq!(resources.events.len(), 5);
}

#[test]
fn prepare_request_is_answered_ready_and_pam_requests_check_their_channel() {
    assert_eq!(dispatch_request(AdmittedRequest::PrepareSession), RequestDispatch::AnswerReady);
    assert_eq!(
        dispatch_request(AdmittedRequest::PamSession { has_control_path: false, peer_matches: false }),
        RequestDispatch::Run
    );
    assert_eq!(
        dispatch_request(AdmittedRequest::PamSession { has_control_path: true, peer_matches: false }),
        RequestDispatch::Reject(RejectionCode::InvalidRequest)
    );
    assert_eq!(
        dispatch_request(AdmittedRequest::PamSession { has_control_path: true, peer_matches: true }),
        RequestDispatch::AnnounceThenRun
    );
}

#[test]
fn finalization_releases_pin_then_pam_then_terminal() {
    assert_eq!(finalization_step(0), Some(FinalizationRequest::ReleasePin));
    assert_eq!(finalization_step(1), Some(FinalizationRequest::ClosePam));
    assert_eq!(finalization_step(2), Some(FinalizationRequest::ReleaseTerminal));
    assert_eq!(finalization_step(3), None);
}
