//! The launch of an authenticated session as a sequence of stages: what the
//! worker does after each stage's outcome, from the request up to `Started`.
//!
//! The worker performs each stage (PAM, logind, the session child, the
//! payload scope) and hands the outcome to `launch_step`, which answers with
//! the next stage or with how the launch ends and what must be released.
use vstd::prelude::*;

verus! {

/// The points of a launch at which a test harness may hold the worker.
#[derive(Debug, Clone, Copy, PartialEq, Eq, Structural)]
pub enum WorkerLaunchPhase {
    PendingHandoffBeforeScope,
    ScopePinnedBeforeAck,
    AckReceivedBeforeCommitExec,
}

/// The stages of a launch, in the order they are taken.
#[derive(Debug, Clone, Copy, PartialEq, Eq, Structural)]
pub enum LaunchStage {
    /// The execution plan is well formed.
    Plan,
    /// The planned executable is a file with an execute bit.
    Executable,
    /// A real graphical session is authorized and its watchdog set.
    Watchdog,
    /// The worker itself belongs to no logind session.
    LogindMembership,
    /// The control socket, where one was asked for, is bound.
    ControlListener,
    /// A VT was allocated on `seat0`.
    Terminal,
    /// PAM authenticated the user.
    Authentication,
    /// The canonical Unix identity was resolved.
    Identity,
    /// The supplementary groups were resolved.
    Groups,
    /// The PAM session was opened.
    SessionOpen,
    /// The PAM session environment was read.
    SessionEnvironment,
    /// logind reports the worker's new session on the owned seat and VT.
    LogindBinding,
    /// PAM and logind name the same session.
    SessionIdMatch,
    /// The runtime directory is valid.
    RuntimeDirectory,
    /// The pending SELinux exec context was captured.
    SelinuxCapture,
    /// The pending SELinux exec context, where there was one, was cleared.
    SelinuxClear,
    /// The owned VT descriptor was duplicated for the child.
    TerminalDuplicate,
    /// The session child runner was built.
    ChildRunner,
    /// The child's runtime context was built.
    ChildContext,
    /// The session child reported ready; its exec handoff is now pending.
    ChildReady,
    /// A harness hold before the payload scope.
    GateBeforeScope,
    /// No worker signal arrived while the handoff was pending.
    SignalBeforeScope,
    /// The launch watchdog has not expired.
    WatchdogBeforeBinding,
    /// The child's terminal proof names the owned VT.
    TerminalProof,
    /// logind puts the child in the worker's session.
    ChildLogind,
    /// The owned VT was activated.
    TerminalActivation,
    /// The launch watchdog has still not expired.
    WatchdogBeforeScope,
    /// Where registration is required, a control channel exists.
    RegistrationChannel,
    /// The payload scope was prepared; it is held from now on.
    ScopePreparation,
    /// The scope was announced to the supervisor.
    RegistrationSent,
    /// A harness hold before the acknowledgement.
    GateBeforeAck,
    /// The supervisor acknowledged the scope.
    RegistrationAck,
    /// A harness hold before the commit.
    GateBeforeCommit,
    /// No worker signal arrived before the commit.
    SignalBeforeCommit,
    /// The exec handoff was committed and the final exec succeeded.
    CommitExec,
    /// The final process runs in the SELinux context PAM asked for.
    SelinuxVerification,
    /// `Started` may be reported.
    Started,
}

/// What the worker observed at a stage.
#[derive(Debug, Clone, Copy, PartialEq, Eq, Structural)]
pub enum StepOutcome {
    Passed,
    Failed,
    /// A worker signal is pending (signal stages).
    Signaled,
    /// The stage's own read failed (signal stages).
    ReadFailed,
    /// PAM panicked while opening the session.
    Panicked,
    /// PAM refused the credentials.
    LoginRejected,
    /// PAM itself failed.
    AuthInfrastructureFailed,
    /// PAM gave no authenticated identity.
    IdentityUnavailable,
    /// The worker already belongs to a logind session.
    AlreadyInSession,
}

/// The codes a launch reports in `SessionFailed`.
#[derive(Debug, Clone, Copy, PartialEq, Eq, Structural)]
pub enum SessionFailureCode {
    LaunchSpecMalformed,
    ExecutableUnavailable,
    WorkerAlreadyInLogindSession,
    OpenFailed,
    PamIdentityUnavailable,
    IdentityResolutionFailed,
    SupplementaryGroupsResolutionFailed,
    RuntimeEnvironmentFailed,
    LogindFailed,
    LogindSessionIdMismatch,
    RuntimeDirectoryInvalid,
    SessionChildFailed,
    CommitFailed,
    InternalPanic,
}

/// The codes of a `Rejected` answer.
#[derive(Debug, Clone, Copy, PartialEq, Eq, Structural)]
pub enum RejectionCode {
    InvalidRequest,
    UnsupportedVersion,
    InternalError,
    RealGraphicalSessionNotAuthorized,
}

/// What must be undone when a launch fails, beyond ending PAM and the VT.
#[derive(Debug, Clone, Copy, PartialEq, Eq, Structural)]
pub enum LaunchCleanup {
    Nothing,
    /// Abort the pending exec handoff.
    AbortHandoff,
    /// Abort the handoff and clean the scope up, the pin released.
    AbortAndCleanupScope,
    /// Abort the handoff, clean the scope up keeping the pin, then have
    /// the supervisor release it (or, unregistered, release the pin).
    AbortAndReleaseScope,
    /// Clean the scope up and, registered, tell the supervisor.
    CleanupScope,
    /// Terminate the session process, then as `CleanupScope`.
    TerminateAndCleanupScope,
}

/// How the worker goes on after a stage.
#[derive(Debug, Clone, Copy, PartialEq, Eq, Structural)]
pub enum LaunchDirective {
    Continue(LaunchStage),
    /// Answer `Rejected` with the code.
    Reject(RejectionCode),
    /// Answer `AuthenticationFailed`.
    AuthenticationFailed,
    /// Answer `SessionFailed` with the code, after the cleanup.
    Fail(SessionFailureCode, LaunchCleanup),
    /// Stop without an answer, after the cleanup: the channel itself failed.
    Abandon(LaunchCleanup),
    /// Answer `Started`.
    Start,
}

/// The stage after `stage` on a successful launch; the registration stages
/// are taken only where the scope must be registered.
pub open spec fn spec_next_stage(stage: LaunchStage, registration: bool) -> LaunchStage {
    match stage {
        LaunchStage::Plan => LaunchStage::Executable,
        LaunchStage::Executable => LaunchStage::Watchdog,
        LaunchStage::Watchdog => LaunchStage::LogindMembership,
        LaunchStage::LogindMembership => LaunchStage::ControlListener,
        LaunchStage::ControlListener => LaunchStage::Terminal,
        LaunchStage::Terminal => LaunchStage::Authentication,
        LaunchStage::Authentication => LaunchStage::Identity,
        LaunchStage::Identity => LaunchStage::Groups,
        LaunchStage::Groups => LaunchStage::SessionOpen,
        LaunchStage::SessionOpen => LaunchStage::SessionEnvironment,
        LaunchStage::SessionEnvironment => LaunchStage::LogindBinding,
        LaunchStage::LogindBinding => LaunchStage::SessionIdMatch,
        LaunchStage::SessionIdMatch => LaunchStage::RuntimeDirectory,
        LaunchStage::RuntimeDirectory => LaunchStage::SelinuxCapture,
        LaunchStage::SelinuxCapture => LaunchStage::SelinuxClear,
        LaunchStage::SelinuxClear => LaunchStage::TerminalDuplicate,
        LaunchStage::TerminalDuplicate => LaunchStage::ChildRunner,
        LaunchStage::ChildRunner => LaunchStage::ChildContext,
        LaunchStage::ChildContext => LaunchStage::ChildReady,
        LaunchStage::ChildReady => LaunchStage::GateBeforeScope,
        LaunchStage::GateBeforeScope => LaunchStage::SignalBeforeScope,
        LaunchStage::SignalBeforeScope => LaunchStage::WatchdogBeforeBinding,
        LaunchStage::WatchdogBeforeBinding => LaunchStage::TerminalProof,
        LaunchStage::TerminalProof => LaunchStage::ChildLogind,
        LaunchStage::ChildLogind => LaunchStage::TerminalActivation,
        LaunchStage::TerminalActivation => LaunchStage::WatchdogBeforeScope,
        LaunchStage::WatchdogBeforeScope => LaunchStage::RegistrationChannel,
        LaunchStage::RegistrationChannel => LaunchStage::ScopePreparation,
        LaunchStage::ScopePreparation => if registration {
            LaunchStage::RegistrationSent
        } else {
            LaunchStage::SignalBeforeCommit
        },
        LaunchStage::RegistrationSent => LaunchStage::GateBeforeAck,
        LaunchStage::GateBeforeAck => LaunchStage::RegistrationAck,
        LaunchStage::RegistrationAck => LaunchStage::GateBeforeCommit,
        LaunchStage::GateBeforeCommit => LaunchStage::SignalBeforeCommit,
        LaunchStage::SignalBeforeCommit => LaunchStage::CommitExec,
        LaunchStage::CommitExec => LaunchStage::SelinuxVerification,
        LaunchStage::SelinuxVerification => LaunchStage::Started,
        LaunchStage::Started => LaunchStage::Started,
    }
}

/// The outcomes with which a stage lets the launch go on. A failed query of
/// the worker's own logind membership does not stop it: PAM and logind
/// stay authoritative.
pub open spec fn spec_step_passes(stage: LaunchStage, outcome: StepOutcome) -> bool {
    outcome == StepOutcome::Passed || (stage == LaunchStage::LogindMembership && outcome
        == StepOutcome::Failed)
}

/// The failure code, and what to undo, when `stage` did not pass.
pub open spec fn spec_stage_failure(stage: LaunchStage, outcome: StepOutcome) -> LaunchDirective {
    match stage {
        LaunchStage::Plan => LaunchDirective::Fail(
            SessionFailureCode::LaunchSpecMalformed,
            LaunchCleanup::Nothing,
        ),
        LaunchStage::Executable => LaunchDirective::Fail(
            SessionFailureCode::ExecutableUnavailable,
            LaunchCleanup::Nothing,
        ),
        LaunchStage::Watchdog => LaunchDirective::Reject(
            RejectionCode::RealGraphicalSessionNotAuthorized,
        ),
        LaunchStage::LogindMembership => LaunchDirective::Fail(
            SessionFailureCode::WorkerAlreadyInLogindSession,
            LaunchCleanup::Nothing,
        ),
        LaunchStage::Terminal => LaunchDirective::Fail(
            SessionFailureCode::OpenFailed,
            LaunchCleanup::Nothing,
        ),
        LaunchStage::Authentication => if outcome == StepOutcome::LoginRejected {
            LaunchDirective::AuthenticationFailed
        } else if outcome == StepOutcome::IdentityUnavailable {
            LaunchDirective::Fail(SessionFailureCode::PamIdentityUnavailable, LaunchCleanup::Nothing)
        } else {
            LaunchDirective::Reject(RejectionCode::InternalError)
        },
        LaunchStage::Identity => LaunchDirective::Fail(
            SessionFailureCode::IdentityResolutionFailed,
            LaunchCleanup::Nothing,
        ),
        LaunchStage::Groups => LaunchDirective::Fail(
            SessionFailureCode::SupplementaryGroupsResolutionFailed,
            LaunchCleanup::Nothing,
        ),
        LaunchStage::SessionOpen => if outcome == StepOutcome::Panicked {
            LaunchDirective::Fail(SessionFailureCode::InternalPanic, LaunchCleanup::Nothing)
        } else {
            LaunchDirective::Fail(SessionFailureCode::OpenFailed, LaunchCleanup::Nothing)
        },
        LaunchStage::SessionEnvironment => LaunchDirective::Fail(
            SessionFailureCode::RuntimeEnvironmentFailed,
            LaunchCleanup::Nothing,
        ),
        LaunchStage::LogindBinding => LaunchDirective::Fail(
            SessionFailureCode::LogindFailed,
            LaunchCleanup::Nothing,
        ),
        LaunchStage::SessionIdMatch => LaunchDirective::Fail(
            SessionFailureCode::LogindSessionIdMismatch,
            LaunchCleanup::Nothing,
        ),
        LaunchStage::RuntimeDirectory => LaunchDirective::Fail(
            SessionFailureCode::RuntimeDirectoryInvalid,
            LaunchCleanup::Nothing,
        ),
        LaunchStage::SelinuxCapture | LaunchStage::SelinuxClear | LaunchStage::TerminalDuplicate
        | LaunchStage::ChildRunner | LaunchStage::ChildContext | LaunchStage::ChildReady =>
            LaunchDirective::Fail(SessionFailureCode::SessionChildFailed, LaunchCleanup::Nothing),
        LaunchStage::ControlListener | LaunchStage::GateBeforeScope => LaunchDirective::Abandon(
            LaunchCleanup::Nothing,
        ),
        LaunchStage::SignalBeforeScope => if outcome == StepOutcome::ReadFailed {
            LaunchDirective::Abandon(LaunchCleanup::Nothing)
        } else {
            LaunchDirective::Fail(SessionFailureCode::SessionChildFailed, LaunchCleanup::AbortHandoff)
        },
        LaunchStage::ChildLogind => LaunchDirective::Fail(
            SessionFailureCode::LogindFailed,
            LaunchCleanup::AbortHandoff,
        ),
        LaunchStage::WatchdogBeforeBinding | LaunchStage::TerminalProof
        | LaunchStage::TerminalActivation | LaunchStage::WatchdogBeforeScope
        | LaunchStage::RegistrationChannel | LaunchStage::ScopePreparation =>
            LaunchDirective::Fail(SessionFailureCode::SessionChildFailed, LaunchCleanup::AbortHandoff),
        LaunchStage::RegistrationSent => LaunchDirective::Abandon(
            LaunchCleanup::AbortAndCleanupScope,
        ),
        LaunchStage::GateBeforeAck | LaunchStage::GateBeforeCommit => LaunchDirective::Abandon(
            LaunchCleanup::Nothing,
        ),
        LaunchStage::RegistrationAck => LaunchDirective::Fail(
            SessionFailureCode::SessionChildFailed,
            LaunchCleanup::AbortAndReleaseScope,
        ),
        LaunchStage::SignalBeforeCommit => if outcome == StepOutcome::ReadFailed {
            LaunchDirective::Abandon(LaunchCleanup::Nothing)
        } else {
            LaunchDirective::Fail(
                SessionFailureCode::SessionChildFailed,
                LaunchCleanup::AbortAndReleaseScope,
            )
        },
        LaunchStage::CommitExec => LaunchDirective::Fail(
            SessionFailureCode::CommitFailed,
            LaunchCleanup::CleanupScope,
        ),
        LaunchStage::SelinuxVerification => LaunchDirective::Fail(
            SessionFailureCode::SessionChildFailed,
            LaunchCleanup::TerminateAndCleanupScope,
        ),
        LaunchStage::Started => LaunchDirective::Start,
    }
}

/// The worker's answer to the outcome of a stage.
pub open spec fn spec_launch_step(stage: LaunchStage, outcome: StepOutcome, registration: bool) -> LaunchDirective {
    if stage == LaunchStage::Started {
        LaunchDirective::Start
    } else if spec_step_passes(stage, outcome) {
        LaunchDirective::Continue(spec_next_stage(stage, registration))
    } else {
        spec_stage_failure(stage, outcome)
    }
}

fn next_stage(stage: LaunchStage, registration: bool) -> (r: LaunchStage)
    ensures
        r == spec_next_stage(stage, registration),
{
    match stage {
        LaunchStage::Plan => LaunchStage::Executable,
        LaunchStage::Executable => LaunchStage::Watchdog,
        LaunchStage::Watchdog => LaunchStage::LogindMembership,
        LaunchStage::LogindMembership => LaunchStage::ControlListener,
        LaunchStage::ControlListener => LaunchStage::Terminal,
        LaunchStage::Terminal => LaunchStage::Authentication,
        LaunchStage::Authentication => LaunchStage::Identity,
        LaunchStage::Identity => LaunchStage::Groups,
        LaunchStage::Groups => LaunchStage::SessionOpen,
        LaunchStage::SessionOpen => LaunchStage::SessionEnvironment,
        LaunchStage::SessionEnvironment => LaunchStage::LogindBinding,
        LaunchStage::LogindBinding => LaunchStage::SessionIdMatch,
        LaunchStage::SessionIdMatch => LaunchStage::RuntimeDirectory,
        LaunchStage::RuntimeDirectory => LaunchStage::SelinuxCapture,
        LaunchStage::SelinuxCapture => LaunchStage::SelinuxClear,
        LaunchStage::SelinuxClear => LaunchStage::TerminalDuplicate,
        LaunchStage::TerminalDuplicate => LaunchStage::ChildRunner,
        LaunchStage::ChildRunner => LaunchStage::ChildContext,
        LaunchStage::ChildContext => LaunchStage::ChildReady,
        LaunchStage::ChildReady => LaunchStage::GateBeforeScope,
        LaunchStage::GateBeforeScope => LaunchStage::SignalBeforeScope,
        LaunchStage::SignalBeforeScope => LaunchStage::WatchdogBeforeBinding,
        LaunchStage::WatchdogBeforeBinding => LaunchStage::TerminalProof,
        LaunchStage::TerminalProof => LaunchStage::ChildLogind,
        LaunchStage::ChildLogind => LaunchStage::TerminalActivation,
        LaunchStage::TerminalActivation => LaunchStage::WatchdogBeforeScope,
        LaunchStage::WatchdogBeforeScope => LaunchStage::RegistrationChannel,
        LaunchStage::RegistrationChannel => LaunchStage::ScopePreparation,
        LaunchStage::ScopePreparation => {
            if registration {
                LaunchStage::RegistrationSent
            } else {
                LaunchStage::SignalBeforeCommit
            }
        },
        LaunchStage::RegistrationSent => LaunchStage::GateBeforeAck,
        LaunchStage::GateBeforeAck => LaunchStage::RegistrationAck,
        LaunchStage::RegistrationAck => LaunchStage::GateBeforeCommit,
        LaunchStage::GateBeforeCommit => LaunchStage::SignalBeforeCommit,
        LaunchStage::SignalBeforeCommit => LaunchStage::CommitExec,
        LaunchStage::CommitExec => LaunchStage::SelinuxVerification,
        LaunchStage::SelinuxVerification => LaunchStage::Started,
        LaunchStage::Started => LaunchStage::Started,
    }
}

fn stage_failure(stage: LaunchStage, outcome: StepOutcome) -> (r: LaunchDirective)
    ensures
        r == spec_stage_failure(stage, outcome),
{
    match stage {
        LaunchStage::Plan => LaunchDirective::Fail(
            SessionFailureCode::LaunchSpecMalformed,
            LaunchCleanup::Nothing,
        ),
        LaunchStage::Executable => LaunchDirective::Fail(
            SessionFailureCode::ExecutableUnavailable,
            LaunchCleanup::Nothing,
        ),
        LaunchStage::Watchdog => LaunchDirective::Reject(
            RejectionCode::RealGraphicalSessionNotAuthorized,
        ),
        LaunchStage::LogindMembership => LaunchDirective::Fail(
            SessionFailureCode::WorkerAlreadyInLogindSession,
            LaunchCleanup::Nothing,
        ),
        LaunchStage::Terminal => LaunchDirective::Fail(
            SessionFailureCode::OpenFailed,
            LaunchCleanup::Nothing,
        ),
        LaunchStage::Authentication => {
            match outcome {
                StepOutcome::LoginRejected => LaunchDirective::AuthenticationFailed,
                StepOutcome::IdentityUnavailable => LaunchDirective::Fail(
                    SessionFailureCode::PamIdentityUnavailable,
                    LaunchCleanup::Nothing,
                ),
                _ => LaunchDirective::Reject(RejectionCode::InternalError),
            }
        },
        LaunchStage::Identity => LaunchDirective::Fail(
            SessionFailureCode::IdentityResolutionFailed,
            LaunchCleanup::Nothing,
        ),
        LaunchStage::Groups => LaunchDirective::Fail(
            SessionFailureCode::SupplementaryGroupsResolutionFailed,
            LaunchCleanup::Nothing,
        ),
        LaunchStage::SessionOpen => {
            match outcome {
                StepOutcome::Panicked => LaunchDirective::Fail(
                    SessionFailureCode::InternalPanic,
                    LaunchCleanup::Nothing,
                ),
                _ => LaunchDirective::Fail(SessionFailureCode::OpenFailed, LaunchCleanup::Nothing),
            }
        },
        LaunchStage::SessionEnvironment => LaunchDirective::Fail(
            SessionFailureCode::RuntimeEnvironmentFailed,
            LaunchCleanup::Nothing,
        ),
        LaunchStage::LogindBinding => LaunchDirective::Fail(
            SessionFailureCode::LogindFailed,
            LaunchCleanup::Nothing,
        ),
        LaunchStage::SessionIdMatch => LaunchDirective::Fail(
            SessionFailureCode::LogindSessionIdMismatch,
            LaunchCleanup::Nothing,
        ),
        LaunchStage::RuntimeDirectory => LaunchDirective::Fail(
            SessionFailureCode::RuntimeDirectoryInvalid,
            LaunchCleanup::Nothing,
        ),
        LaunchStage::SelinuxCapture | LaunchStage::SelinuxClear | LaunchStage::TerminalDuplicate
        | LaunchStage::ChildRunner | LaunchStage::ChildContext | LaunchStage::ChildReady =>
            LaunchDirective::Fail(SessionFailureCode::SessionChildFailed, LaunchCleanup::Nothing),
        LaunchStage::ControlListener | LaunchStage::GateBeforeScope => LaunchDirective::Abandon(
            LaunchCleanup::Nothing,
        ),
        LaunchStage::SignalBeforeScope => {
            match outcome {
                StepOutcome::ReadFailed => LaunchDirective::Abandon(LaunchCleanup::Nothing),
                _ => LaunchDirective::Fail(
                    SessionFailureCode::SessionChildFailed,
                    LaunchCleanup::AbortHandoff,
                ),
            }
        },
        LaunchStage::ChildLogind => LaunchDirective::Fail(
            SessionFailureCode::LogindFailed,
            LaunchCleanup::AbortHandoff,
        ),
        LaunchStage::WatchdogBeforeBinding | LaunchStage::TerminalProof
        | LaunchStage::TerminalActivation | LaunchStage::WatchdogBeforeScope
        | LaunchStage::RegistrationChannel | LaunchStage::ScopePreparation =>
            LaunchDirective::Fail(SessionFailureCode::SessionChildFailed, LaunchCleanup::AbortHandoff),
        LaunchStage::RegistrationSent => LaunchDirective::Abandon(
            LaunchCleanup::AbortAndCleanupScope,
        ),
        LaunchStage::GateBeforeAck | LaunchStage::GateBeforeCommit => LaunchDirective::Abandon(
            LaunchCleanup::Nothing,
        ),
        LaunchStage::RegistrationAck => LaunchDirective::Fail(
            SessionFailureCode::SessionChildFailed,
            LaunchCleanup::AbortAndReleaseScope,
        ),
        LaunchStage::SignalBeforeCommit => {
            match outcome {
                StepOutcome::ReadFailed => LaunchDirective::Abandon(LaunchCleanup::Nothing),
                _ => LaunchDirective::Fail(
                    SessionFailureCode::SessionChildFailed,
                    LaunchCleanup::AbortAndReleaseScope,
                ),
            }
        },
        LaunchStage::CommitExec => LaunchDirective::Fail(
            SessionFailureCode::CommitFailed,
            LaunchCleanup::CleanupScope,
        ),
        LaunchStage::SelinuxVerification => LaunchDirective::Fail(
            SessionFailureCode::SessionChildFailed,
            LaunchCleanup::TerminateAndCleanupScope,
        ),
        LaunchStage::Started => LaunchDirective::Start,
    }
}

/// What the worker does after the outcome of a stage: the next stage where
/// it passed, otherwise the answer and the cleanup the stage calls for.
/// `registration` says whether the payload scope must be registered with
/// the supervisor before the commit.
pub fn launch_step(stage: LaunchStage, outcome: StepOutcome, registration: bool) -> (r:
    LaunchDirective)
    ensures
        r == spec_launch_step(stage, outcome, registration),
{
    if matches!(stage, LaunchStage::Started) {
        return LaunchDirective::Start;
    }
    let passes = match outcome {
        StepOutcome::Passed => true,
        StepOutcome::Failed => matches!(stage, LaunchStage::LogindMembership),
        _ => false,
    };
    if passes {
        LaunchDirective::Continue(next_stage(stage, registration))
    } else {
        stage_failure(stage, outcome)
    }
}

/// Where a launch that takes these outcomes in turn, from `stage` on, ends:
/// the directive that stops it, or `Continue` of the stage it stands at
/// when the outcomes run out.
pub open spec fn spec_launch_run(stage: LaunchStage, outcomes: Seq<StepOutcome>, registration: bool) -> LaunchDirective
    decreases outcomes.len(),
{
    if outcomes.len() == 0 {
        if stage == LaunchStage::Started {
            LaunchDirective::Start
        } else {
            LaunchDirective::Continue(stage)
        }
    } else {
        match spec_launch_step(stage, outcomes[0], registration) {
            LaunchDirective::Continue(next) => spec_launch_run(next, outcomes.drop_first(), registration),
            other => other,
        }
    }
}

/// The stages a successful launch from `stage` takes, `count` of them.
pub open spec fn spec_stage_after(stage: LaunchStage, count: nat, registration: bool) -> LaunchStage
    decreases count,
{
    if count == 0 {
        stage
    } else {
        spec_stage_after(spec_next_stage(stage, registration), (count - 1) as nat, registration)
    }
}

proof fn lemma_started_stays(count: nat, registration: bool)
    ensures
        spec_stage_after(LaunchStage::Started, count, registration) == LaunchStage::Started,
    decreases count,
{
    if count > 0 {
        lemma_started_stays((count - 1) as nat, registration);
    }
}

/// A launch answers `Started` only where every stage it went through
/// passed, each in its turn: no failed check, however late, lets the
/// session start.
pub proof fn lemma_start_requires_every_stage(
    stage: LaunchStage,
    outcomes: Seq<StepOutcome>,
    registration: bool,
)
    requires
        spec_launch_run(stage, outcomes, registration) == LaunchDirective::Start,
    ensures
        forall|i: int|
            0 <= i < outcomes.len() && spec_stage_after(stage, i as nat, registration)
                != LaunchStage::Started ==> #[trigger] spec_step_passes(
                spec_stage_after(stage, i as nat, registration),
                outcomes[i],
            ),
    decreases outcomes.len(),
{
    if stage == LaunchStage::Started {
        assert forall|i: int|
            0 <= i < outcomes.len() && spec_stage_after(stage, i as nat, registration)
                != LaunchStage::Started implies #[trigger] spec_step_passes(
            spec_stage_after(stage, i as nat, registration),
            outcomes[i],
        ) by {
            lemma_started_stays(i as nat, registration);
        }
    } else if outcomes.len() > 0 {
        let next = spec_next_stage(stage, registration);
        if !spec_step_passes(stage, outcomes[0]) {
            assert(spec_launch_step(stage, outcomes[0], registration) == spec_stage_failure(
                stage,
                outcomes[0],
            ));
            assert(spec_launch_run(stage, outcomes, registration) == spec_stage_failure(
                stage,
                outcomes[0],
            ));
            assert(false);
        }
        lemma_start_requires_every_stage(next, outcomes.drop_first(), registration);
        assert forall|i: int|
            0 <= i < outcomes.len() && spec_stage_after(stage, i as nat, registration)
                != LaunchStage::Started implies #[trigger] spec_step_passes(
            spec_stage_after(stage, i as nat, registration),
            outcomes[i],
        ) by {
            if i > 0 {
                assert(spec_stage_after(stage, i as nat, registration) == spec_stage_after(
                    next,
                    (i - 1) as nat,
                    registration,
                ));
                assert(outcomes[i] == outcomes.drop_first()[i - 1]);
            }
        }
    }
}

/// The stages of a launch, in the order they are checked: the same list
/// with and without registration up to the scope's preparation, then the
/// registration exchange where it is required, then the commit, the SELinux
/// check and `Started`.
pub open spec fn launch_order(registration: bool) -> Seq<LaunchStage> {
    if registration {
        seq![
            LaunchStage::Plan,
            LaunchStage::Executable,
            LaunchStage::Watchdog,
            LaunchStage::LogindMembership,
            LaunchStage::ControlListener,
            LaunchStage::Terminal,
            LaunchStage::Authentication,
            LaunchStage::Identity,
            LaunchStage::Groups,
            LaunchStage::SessionOpen,
            LaunchStage::SessionEnvironment,
            LaunchStage::LogindBinding,
            LaunchStage::SessionIdMatch,
            LaunchStage::RuntimeDirectory,
            LaunchStage::SelinuxCapture,
            LaunchStage::SelinuxClear,
            LaunchStage::TerminalDuplicate,
            LaunchStage::ChildRunner,
            LaunchStage::ChildContext,
            LaunchStage::ChildReady,
            LaunchStage::GateBeforeScope,
            LaunchStage::SignalBeforeScope,
            LaunchStage::WatchdogBeforeBinding,
            LaunchStage::TerminalProof,
            LaunchStage::ChildLogind,
            LaunchStage::TerminalActivation,
            LaunchStage::WatchdogBeforeScope,
            LaunchStage::RegistrationChannel,
            LaunchStage::ScopePreparation,
            LaunchStage::RegistrationSent,
            LaunchStage::GateBeforeAck,
            LaunchStage::RegistrationAck,
            LaunchStage::GateBeforeCommit,
            LaunchStage::SignalBeforeCommit,
            LaunchStage::CommitExec,
            LaunchStage::SelinuxVerification,
            LaunchStage::Started,
        ]
    } else {
        seq![
            LaunchStage::Plan,
            LaunchStage::Executable,
            LaunchStage::Watchdog,
            LaunchStage::LogindMembership,
            LaunchStage::ControlListener,
            LaunchStage::Terminal,
            LaunchStage::Authentication,
            LaunchStage::Identity,
            LaunchStage::Groups,
            LaunchStage::SessionOpen,
            LaunchStage::SessionEnvironment,
            LaunchStage::LogindBinding,
            LaunchStage::SessionIdMatch,
            LaunchStage::RuntimeDirectory,
            LaunchStage::SelinuxCapture,
            LaunchStage::SelinuxClear,
            LaunchStage::TerminalDuplicate,
            LaunchStage::ChildRunner,
            LaunchStage::ChildContext,
            LaunchStage::ChildReady,
            LaunchStage::GateBeforeScope,
            LaunchStage::SignalBeforeScope,
            LaunchStage::WatchdogBeforeBinding,
            LaunchStage::TerminalProof,
            LaunchStage::ChildLogind,
            LaunchStage::TerminalActivation,
            LaunchStage::WatchdogBeforeScope,
            LaunchStage::RegistrationChannel,
            LaunchStage::ScopePreparation,
            LaunchStage::SignalBeforeCommit,
            LaunchStage::CommitExec,
            LaunchStage::SelinuxVerification,
            LaunchStage::Started,
        ]
    }
}

/// Each stage of the list that passes leads to the next stage of the list.
pub proof fn lemma_passing_stage_leads_to_next_listed(registration: bool, k: int)
    requires
        0 <= k < launch_order(registration).len() - 1,
    ensures
        spec_launch_step(launch_order(registration)[k], StepOutcome::Passed, registration)
            == LaunchDirective::Continue(launch_order(registration)[k + 1]),
        launch_order(registration)[k] != LaunchStage::Started,
{
    let order = launch_order(registration);
    if registration {
        if k == 0 {
            assert(order[0] == LaunchStage::Plan && order[1] == LaunchStage::Executable);
        } else if k == 1 {
            assert(order[1] == LaunchStage::Executable && order[2] == LaunchStage::Watchdog);
        } else if k == 2 {
            assert(order[2] == LaunchStage::Watchdog && order[3] == LaunchStage::LogindMembership);
        } else if k == 3 {
            assert(order[3] == LaunchStage::LogindMembership && order[4] == LaunchStage::ControlListener);
        } else if k == 4 {
            assert(order[4] == LaunchStage::ControlListener && order[5] == LaunchStage::Terminal);
        } else if k == 5 {
            assert(order[5] == LaunchStage::Terminal && order[6] == LaunchStage::Authentication);
        } else if k == 6 {
            assert(order[6] == LaunchStage::Authentication && order[7] == LaunchStage::Identity);
        } else if k == 7 {
            assert(order[7] == LaunchStage::Identity && order[8] == LaunchStage::Groups);
        } else if k == 8 {
            assert(order[8] == LaunchStage::Groups && order[9] == LaunchStage::SessionOpen);
        } else if k == 9 {
            assert(order[9] == LaunchStage::SessionOpen && order[10] == LaunchStage::SessionEnvironment);
        } else if k == 10 {
            assert(order[10] == LaunchStage::SessionEnvironment && order[11] == LaunchStage::LogindBinding);
        } else if k == 11 {
            assert(order[11] == LaunchStage::LogindBinding && order[12] == LaunchStage::SessionIdMatch);
        } else if k == 12 {
            assert(order[12] == LaunchStage::SessionIdMatch && order[13] == LaunchStage::RuntimeDirectory);
        } else if k == 13 {
            assert(order[13] == LaunchStage::RuntimeDirectory && order[14] == LaunchStage::SelinuxCapture);
        } else if k == 14 {
            assert(order[14] == LaunchStage::SelinuxCapture && order[15] == LaunchStage::SelinuxClear);
        } else if k == 15 {
            assert(order[15] == LaunchStage::SelinuxClear && order[16] == LaunchStage::TerminalDuplicate);
        } else if k == 16 {
            assert(order[16] == LaunchStage::TerminalDuplicate && order[17] == LaunchStage::ChildRunner);
        } else if k == 17 {
            assert(order[17] == LaunchStage::ChildRunner && order[18] == LaunchStage::ChildContext);
        } else if k == 18 {
            assert(order[18] == LaunchStage::ChildContext && order[19] == LaunchStage::ChildReady);
        } else if k == 19 {
            assert(order[19] == LaunchStage::ChildReady && order[20] == LaunchStage::GateBeforeScope);
        } else if k == 20 {
            assert(order[20] == LaunchStage::GateBeforeScope && order[21] == LaunchStage::SignalBeforeScope);
        } else if k == 21 {
            assert(order[21] == LaunchStage::SignalBeforeScope && order[22] == LaunchStage::WatchdogBeforeBinding);
        } else if k == 22 {
            assert(order[22] == LaunchStage::WatchdogBeforeBinding && order[23] == LaunchStage::TerminalProof);
        } else if k == 23 {
            assert(order[23] == LaunchStage::TerminalProof && order[24] == LaunchStage::ChildLogind);
        } else if k == 24 {
            assert(order[24] == LaunchStage::ChildLogind && order[25] == LaunchStage::TerminalActivation);
        } else if k == 25 {
            assert(order[25] == LaunchStage::TerminalActivation && order[26] == LaunchStage::WatchdogBeforeScope);
        } else if k == 26 {
            assert(order[26] == LaunchStage::WatchdogBeforeScope && order[27] == LaunchStage::RegistrationChannel);
        } else if k == 27 {
            assert(order[27] == LaunchStage::RegistrationChannel && order[28] == LaunchStage::ScopePreparation);
        } else if k == 28 {
            assert(order[28] == LaunchStage::ScopePreparation && order[29] == LaunchStage::RegistrationSent);
        } else if k == 29 {
            assert(order[29] == LaunchStage::RegistrationSent && order[30] == LaunchStage::GateBeforeAck);
        } else if k == 30 {
            assert(order[30] == LaunchStage::GateBeforeAck && order[31] == LaunchStage::RegistrationAck);
        } else if k == 31 {
            assert(order[31] == LaunchStage::RegistrationAck && order[32] == LaunchStage::GateBeforeCommit);
        } else if k == 32 {
            assert(order[32] == LaunchStage::GateBeforeCommit && order[33] == LaunchStage::SignalBeforeCommit);
        } else if k == 33 {
            assert(order[33] == LaunchStage::SignalBeforeCommit && order[34] == LaunchStage::CommitExec);
        } else if k == 34 {
            assert(order[34] == LaunchStage::CommitExec && order[35] == LaunchStage::SelinuxVerification);
        } else if k == 35 {
            assert(order[35] == LaunchStage::SelinuxVerification && order[36] == LaunchStage::Started);
        }
    } else {
        if k == 0 {
            assert(order[0] == LaunchStage::Plan && order[1] == LaunchStage::Executable);
        } else if k == 1 {
            assert(order[1] == LaunchStage::Executable && order[2] == LaunchStage::Watchdog);
        } else if k == 2 {
            assert(order[2] == LaunchStage::Watchdog && order[3] == LaunchStage::LogindMembership);
        } else if k == 3 {
            assert(order[3] == LaunchStage::LogindMembership && order[4] == LaunchStage::ControlListener);
        } else if k == 4 {
            assert(order[4] == LaunchStage::ControlListener && order[5] == LaunchStage::Terminal);
        } else if k == 5 {
            assert(order[5] == LaunchStage::Terminal && order[6] == LaunchStage::Authentication);
        } else if k == 6 {
            assert(order[6] == LaunchStage::Authentication && order[7] == LaunchStage::Identity);
        } else if k == 7 {
            assert(order[7] == LaunchStage::Identity && order[8] == LaunchStage::Groups);
        } else if k == 8 {
            assert(order[8] == LaunchStage::Groups && order[9] == LaunchStage::SessionOpen);
        } else if k == 9 {
            assert(order[9] == LaunchStage::SessionOpen && order[10] == LaunchStage::SessionEnvironment);
        } else if k == 10 {
            assert(order[10] == LaunchStage::SessionEnvironment && order[11] == LaunchStage::LogindBinding);
        } else if k == 11 {
            assert(order[11] == LaunchStage::LogindBinding && order[12] == LaunchStage::SessionIdMatch);
        } else if k == 12 {
            assert(order[12] == LaunchStage::SessionIdMatch && order[13] == LaunchStage::RuntimeDirectory);
        } else if k == 13 {
            assert(order[13] == LaunchStage::RuntimeDirectory && order[14] == LaunchStage::SelinuxCapture);
        } else if k == 14 {
            assert(order[14] == LaunchStage::SelinuxCapture && order[15] == LaunchStage::SelinuxClear);
        } else if k == 15 {
            assert(order[15] == LaunchStage::SelinuxClear && order[16] == LaunchStage::TerminalDuplicate);
        } else if k == 16 {
            assert(order[16] == LaunchStage::TerminalDuplicate && order[17] == LaunchStage::ChildRunner);
        } else if k == 17 {
            assert(order[17] == LaunchStage::ChildRunner && order[18] == LaunchStage::ChildContext);
        } else if k == 18 {
            assert(order[18] == LaunchStage::ChildContext && order[19] == LaunchStage::ChildReady);
        } else if k == 19 {
            assert(order[19] == LaunchStage::ChildReady && order[20] == LaunchStage::GateBeforeScope);
        } else if k == 20 {
            assert(order[20] == LaunchStage::GateBeforeScope && order[21] == LaunchStage::SignalBeforeScope);
        } else if k == 21 {
            assert(order[21] == LaunchStage::SignalBeforeScope && order[22] == LaunchStage::WatchdogBeforeBinding);
        } else if k == 22 {
            assert(order[22] == LaunchStage::WatchdogBeforeBinding && order[23] == LaunchStage::TerminalProof);
        } else if k == 23 {
            assert(order[23] == LaunchStage::TerminalProof && order[24] == LaunchStage::ChildLogind);
        } else if k == 24 {
            assert(order[24] == LaunchStage::ChildLogind && order[25] == LaunchStage::TerminalActivation);
        } else if k == 25 {
            assert(order[25] == LaunchStage::TerminalActivation && order[26] == LaunchStage::WatchdogBeforeScope);
        } else if k == 26 {
            assert(order[26] == LaunchStage::WatchdogBeforeScope && order[27] == LaunchStage::RegistrationChannel);
        } else if k == 27 {
            assert(order[27] == LaunchStage::RegistrationChannel && order[28] == LaunchStage::ScopePreparation);
        } else if k == 28 {
            assert(order[28] == LaunchStage::ScopePreparation && order[29] == LaunchStage::SignalBeforeCommit);
        } else if k == 29 {
            assert(order[29] == LaunchStage::SignalBeforeCommit && order[30] == LaunchStage::CommitExec);
        } else if k == 30 {
            assert(order[30] == LaunchStage::CommitExec && order[31] == LaunchStage::SelinuxVerification);
        } else if k == 31 {
            assert(order[31] == LaunchStage::SelinuxVerification && order[32] == LaunchStage::Started);
        }
    }
}

proof fn lemma_listed_stage_after(registration: bool, k: nat)
    requires
        k < launch_order(registration).len(),
    ensures
        spec_stage_after(LaunchStage::Plan, k, registration) == launch_order(registration)[k as int],
    decreases k,
{
    let order = launch_order(registration);
    if k == 0 {
        assert(order[0] == LaunchStage::Plan);
    } else {
        lemma_listed_stage_after(registration, (k - 1) as nat);
        lemma_passing_stage_leads_to_next_listed(registration, k - 1);
        lemma_stage_after_step(LaunchStage::Plan, (k - 1) as nat, registration);
    }
}

proof fn lemma_stage_after_step(stage: LaunchStage, k: nat, registration: bool)
    ensures
        spec_stage_after(stage, k + 1, registration) == spec_next_stage(
            spec_stage_after(stage, k, registration),
            registration,
        ),
    decreases k,
{
    let next = spec_next_stage(stage, registration);
    assert(spec_stage_after(stage, k + 1, registration) == spec_stage_after(next, k, registration));
    if k > 0 {
        lemma_stage_after_step(next, (k - 1) as nat, registration);
        assert(spec_stage_after(stage, k, registration) == spec_stage_after(
            next,
            (k - 1) as nat,
            registration,
        ));
    } else {
        assert(spec_stage_after(next, 0, registration) == next);
    }
}

proof fn lemma_run_start_reaches_started(stage: LaunchStage, outcomes: Seq<StepOutcome>, registration: bool)
    requires
        spec_launch_run(stage, outcomes, registration) == LaunchDirective::Start,
    ensures
        spec_stage_after(stage, outcomes.len(), registration) == LaunchStage::Started,
    decreases outcomes.len(),
{
    if stage == LaunchStage::Started {
        lemma_started_stays(outcomes.len(), registration);
    } else if outcomes.len() > 0 {
        if !spec_step_passes(stage, outcomes[0]) {
            assert(spec_launch_run(stage, outcomes, registration) == spec_stage_failure(
                stage,
                outcomes[0],
            ));
            assert(false);
        }
        lemma_run_start_reaches_started(
            spec_next_stage(stage, registration),
            outcomes.drop_first(),
            registration,
        );
    }
}

/// A launch from the plan reaches `Started` only after passing every stage
/// of `launch_order`, each at its place in the list: no listed check, the
/// child's logind session among them, is skipped.
pub proof fn lemma_start_passes_every_listed_stage(outcomes: Seq<StepOutcome>, registration: bool)
    requires
        spec_launch_run(LaunchStage::Plan, outcomes, registration) == LaunchDirective::Start,
    ensures
        outcomes.len() >= launch_order(registration).len() - 1,
        forall|i: int|
            0 <= i < launch_order(registration).len() - 1 ==> #[trigger] spec_step_passes(
                launch_order(registration)[i],
                outcomes[i],
            ),
{
    let order = launch_order(registration);
    lemma_run_start_reaches_started(LaunchStage::Plan, outcomes, registration);
    if outcomes.len() < order.len() - 1 {
        lemma_listed_stage_after(registration, outcomes.len());
        lemma_passing_stage_leads_to_next_listed(registration, outcomes.len() as int);
        assert(false);
    }
    lemma_start_requires_every_stage(LaunchStage::Plan, outcomes, registration);
    assert forall|i: int| 0 <= i < order.len() - 1 implies #[trigger] spec_step_passes(
        order[i],
        outcomes[i],
    ) by {
        lemma_listed_stage_after(registration, i as nat);
        lemma_passing_stage_leads_to_next_listed(registration, i);
        assert(spec_step_passes(spec_stage_after(LaunchStage::Plan, i as nat, registration), outcomes[i]));
    }
}

/// The checks made while the session child's exec handoff is pending and
/// the payload scope not yet prepared.
pub open spec fn handoff_pending_without_scope(stage: LaunchStage) -> bool {
    ||| stage == LaunchStage::SignalBeforeScope
    ||| stage == LaunchStage::WatchdogBeforeBinding
    ||| stage == LaunchStage::TerminalProof
    ||| stage == LaunchStage::ChildLogind
    ||| stage == LaunchStage::TerminalActivation
    ||| stage == LaunchStage::WatchdogBeforeScope
    ||| stage == LaunchStage::RegistrationChannel
    ||| stage == LaunchStage::ScopePreparation
}

/// The steps taken while the payload scope is held and the exec not yet
/// committed.
pub open spec fn scope_held_before_commit(stage: LaunchStage) -> bool {
    ||| stage == LaunchStage::RegistrationSent
    ||| stage == LaunchStage::RegistrationAck
    ||| stage == LaunchStage::SignalBeforeCommit
}

/// The stages at which the final exec has happened and the scope is held.
pub open spec fn committed_scope_held(stage: LaunchStage) -> bool {
    stage == LaunchStage::CommitExec || stage == LaunchStage::SelinuxVerification
}

/// The cleanup a stopped launch calls for.
pub open spec fn directive_cleanup(d: LaunchDirective) -> Option<LaunchCleanup> {
    match d {
        LaunchDirective::Fail(_, c) => Some(c),
        LaunchDirective::Abandon(c) => Some(c),
        _ => None,
    }
}

/// A check that fails while the exec handoff is pending aborts it; one that
/// fails while the scope is held before the commit also cleans the scope
/// up; one that fails after the commit cleans the scope up. (A harness hold
/// or a failed signal read stops the launch by dropping what it holds.)
pub proof fn lemma_stopped_launch_releases_what_it_holds(
    stage: LaunchStage,
    outcome: StepOutcome,
    registration: bool,
)
    requires
        !spec_step_passes(stage, outcome),
        outcome != StepOutcome::ReadFailed,
    ensures
        handoff_pending_without_scope(stage) ==> directive_cleanup(
            spec_launch_step(stage, outcome, registration),
        ) == Some(LaunchCleanup::AbortHandoff),
        scope_held_before_commit(stage) ==> (directive_cleanup(
            spec_launch_step(stage, outcome, registration),
        ) == Some(LaunchCleanup::AbortAndCleanupScope) || directive_cleanup(
            spec_launch_step(stage, outcome, registration),
        ) == Some(LaunchCleanup::AbortAndReleaseScope)),
        committed_scope_held(stage) ==> (directive_cleanup(
            spec_launch_step(stage, outcome, registration),
        ) == Some(LaunchCleanup::CleanupScope) || directive_cleanup(
            spec_launch_step(stage, outcome, registration),
        ) == Some(LaunchCleanup::TerminateAndCleanupScope)),
{
}

/// How the supervisor answered a release request.
#[derive(Debug, Clone, Copy, PartialEq, Eq, Structural)]
pub enum PayloadScopeReleaseOutcome {
    Released,
    RecoveryRequired,
}

/// What follows a release request after a failed launch.
#[derive(Debug, Clone, Copy, PartialEq, Eq, Structural)]
pub enum ReleaseFollowUp {
    /// Report the failure and return.
    Report,
    /// Keep PAM, the VT and the scope, and wait for recovery.
    HoldForRecovery,
}

/// A failed launch is reported only once the supervisor confirmed the
/// release and the local pin was dropped; otherwise the worker keeps what
/// it owns for recovery. `reply` is `None` where the request failed.
pub fn release_follow_up(reply: Option<PayloadScopeReleaseOutcome>, pin_released: bool) -> (r:
    ReleaseFollowUp)
    ensures
        r == (if reply == Some(PayloadScopeReleaseOutcome::Released) && pin_released {
            ReleaseFollowUp::Report
        } else {
            ReleaseFollowUp::HoldForRecovery
        }),
{
    match reply {
        Some(PayloadScopeReleaseOutcome::Released) => {
            if pin_released {
                ReleaseFollowUp::Report
            } else {
                ReleaseFollowUp::HoldForRecovery
            }
        },
        _ => ReleaseFollowUp::HoldForRecovery,
    }
}

} // verus!
