//! How the session leader ended, and the proof that its payload boundary is
//! empty.
use vstd::prelude::*;

use crate::payload_scope::PayloadScopeIdentity;

verus! {

/// How the session leader process ended.
#[derive(Debug, Clone, Copy, PartialEq, Eq, Structural)]
pub enum LeaderExit {
    ExitedZero,
    Exited(i32),
    Signaled(i32),
}

impl LeaderExit {
    /// The exit as a wait status reports it: a code, or else the signal.
    pub fn from_parts(code: Option<i32>, signal: Option<i32>) -> (r: LeaderExit)
        ensures
            r == (match code {
                Some(0) => LeaderExit::ExitedZero,
                Some(c) => LeaderExit::Exited(c),
                None => LeaderExit::Signaled(
                    match signal {
                        Some(s) => s,
                        None => 0,
                    },
                ),
            }),
    {
        match code {
            Some(0) => LeaderExit::ExitedZero,
            Some(c) => LeaderExit::Exited(c),
            None => LeaderExit::Signaled(
                match signal {
                    Some(s) => s,
                    None => 0,
                },
            ),
        }
    }
}

/// Evidence that the payload boundary of one invocation held no process
/// after its leader ended.
#[derive(Debug, Clone)]
pub struct BoundaryEmptyProof {
    unit_name: String,
    invocation_id: String,
    control_group: String,
    leader_exit: LeaderExit,
}

pub struct BoundaryEmptyProofView {
    pub unit_name: Seq<char>,
    pub invocation_id: Seq<char>,
    pub control_group: Seq<char>,
    pub leader_exit: LeaderExit,
}

impl View for BoundaryEmptyProof {
    type V = BoundaryEmptyProofView;

    closed spec fn view(&self) -> BoundaryEmptyProofView {
        BoundaryEmptyProofView {
            unit_name: self.unit_name@,
            invocation_id: self.invocation_id@,
            control_group: self.control_group@,
            leader_exit: self.leader_exit,
        }
    }
}

impl BoundaryEmptyProof {
    pub fn new(identity: &PayloadScopeIdentity, control_group: &str, leader_exit: LeaderExit) -> (r:
        BoundaryEmptyProof)
        ensures
            r@.unit_name == identity.unit_name@,
            r@.invocation_id == identity.invocation_id@,
            r@.control_group == control_group@,
            r@.leader_exit == leader_exit,
    {
        BoundaryEmptyProof {
            unit_name: identity.unit_name.clone(),
            invocation_id: identity.invocation_id.clone(),
            control_group: control_group.to_owned(),
            leader_exit,
        }
    }

    pub fn leader_exit(&self) -> (r: LeaderExit)
        ensures
            r == self@.leader_exit,
    {
        self.leader_exit
    }

    pub fn unit_name(&self) -> (r: &str)
        ensures
            r@ == self@.unit_name,
    {
        self.unit_name.as_str()
    }

    pub fn invocation_id(&self) -> (r: &str)
        ensures
            r@ == self@.invocation_id,
    {
        self.invocation_id.as_str()
    }

    pub fn control_group(&self) -> (r: &str)
        ensures
            r@ == self@.control_group,
    {
        self.control_group.as_str()
    }
}

/// `SIGHUP` on Linux.
pub const LINUX_SIGHUP: i32 = 1;

/// `SIGINT` on Linux.
pub const LINUX_SIGINT: i32 = 2;

/// `SIGTERM` on Linux.
pub const LINUX_SIGTERM_NUMBER: i32 = 15;

/// The signals that ask the worker to end its session.
#[derive(Debug, Clone, Copy, PartialEq, Eq, Structural)]
pub enum WorkerTerminationSignal {
    Sigterm,
    Sigint,
    Sighup,
}

impl WorkerTerminationSignal {
    pub open spec fn spec_from_raw(signal: i32) -> Option<WorkerTerminationSignal> {
        if signal == LINUX_SIGTERM_NUMBER {
            Some(WorkerTerminationSignal::Sigterm)
        } else if signal == LINUX_SIGINT {
            Some(WorkerTerminationSignal::Sigint)
        } else if signal == LINUX_SIGHUP {
            Some(WorkerTerminationSignal::Sighup)
        } else {
            None
        }
    }

    pub fn from_raw(signal: i32) -> (r: Option<WorkerTerminationSignal>)
        ensures
            r == Self::spec_from_raw(signal),
    {
        if signal == LINUX_SIGTERM_NUMBER {
            Some(WorkerTerminationSignal::Sigterm)
        } else if signal == LINUX_SIGINT {
            Some(WorkerTerminationSignal::Sigint)
        } else if signal == LINUX_SIGHUP {
            Some(WorkerTerminationSignal::Sighup)
        } else {
            None
        }
    }
}

/// Why a running session is being ended.
#[derive(Debug, Clone, Copy, PartialEq, Eq, Structural)]
pub enum TerminationCause {
    WorkerSignal(WorkerTerminationSignal),
    SupervisorDisconnected,
    InternalTerminateRequest,
    LeaderExited(LeaderExit),
    RuntimeFailure,
}

/// The name the worker logs for a raw signal number.
pub fn signal_name(signal: i32) -> (r: &'static str)
    ensures
        r@ == (if signal == LINUX_SIGTERM_NUMBER {
            "SIGTERM"@
        } else if signal == LINUX_SIGINT {
            "SIGINT"@
        } else if signal == LINUX_SIGHUP {
            "SIGHUP"@
        } else {
            "UNKNOWN"@
        }),
{
    if signal == LINUX_SIGTERM_NUMBER {
        "SIGTERM"
    } else if signal == LINUX_SIGINT {
        "SIGINT"
    } else if signal == LINUX_SIGHUP {
        "SIGHUP"
    } else {
        "UNKNOWN"
    }
}

/// The harness event that names a termination cause.
pub fn cause_event(cause: &TerminationCause) -> (r: &'static str)
    ensures
        r@ == (match *cause {
            TerminationCause::WorkerSignal(WorkerTerminationSignal::Sigterm) => "Cause:Sigterm"@,
            TerminationCause::WorkerSignal(WorkerTerminationSignal::Sigint) => "Cause:Sigint"@,
            TerminationCause::WorkerSignal(WorkerTerminationSignal::Sighup) => "Cause:Sighup"@,
            TerminationCause::SupervisorDisconnected => "Cause:SupervisorDisconnected"@,
            TerminationCause::InternalTerminateRequest => "Cause:InternalTerminateRequest"@,
            TerminationCause::LeaderExited(_) => "Cause:LeaderExited"@,
            TerminationCause::RuntimeFailure => "Cause:RuntimeFailure"@,
        }),
{
    match cause {
        TerminationCause::WorkerSignal(WorkerTerminationSignal::Sigterm) => "Cause:Sigterm",
        TerminationCause::WorkerSignal(WorkerTerminationSignal::Sigint) => "Cause:Sigint",
        TerminationCause::WorkerSignal(WorkerTerminationSignal::Sighup) => "Cause:Sighup",
        TerminationCause::SupervisorDisconnected => "Cause:SupervisorDisconnected",
        TerminationCause::InternalTerminateRequest => "Cause:InternalTerminateRequest",
        TerminationCause::LeaderExited(_) => "Cause:LeaderExited",
        TerminationCause::RuntimeFailure => "Cause:RuntimeFailure",
    }
}

/// What went wrong in the machinery that watches a running session.
#[derive(Debug, Clone, Copy, PartialEq, Eq, Structural)]
pub enum GracefulTerminationError {
    Timer,
    Poll,
    LeaderReap,
    BoundaryObserver,
    Signal,
    Control,
}

/// The first termination signal among those read in one wake-up, or the
/// signal failure where one of them is none of `SIGTERM`, `SIGINT` and
/// `SIGHUP`.
pub open spec fn spec_signals_trigger(raw: Seq<i32>) -> Result<
    Option<WorkerTerminationSignal>,
    GracefulTerminationError,
>
    decreases raw.len(),
{
    if raw.len() == 0 {
        Ok(None)
    } else {
        match WorkerTerminationSignal::spec_from_raw(raw[0]) {
            None => Err(GracefulTerminationError::Signal),
            Some(s) => match spec_signals_trigger(raw.drop_first()) {
                Err(e) => Err(e),
                Ok(_) => Ok(Some(s)),
            },
        }
    }
}

proof fn lemma_signals_trigger_push(raw: Seq<i32>, x: i32)
    ensures
        spec_signals_trigger(raw.push(x)) == (match spec_signals_trigger(raw) {
            Err(e) => Err(e),
            Ok(first) => match WorkerTerminationSignal::spec_from_raw(x) {
                None => Err(GracefulTerminationError::Signal),
                Some(s) => Ok(
                    match first {
                        Some(f) => Some(f),
                        None => Some(s),
                    },
                ),
            },
        }),
    decreases raw.len(),
{
    if raw.len() == 0 {
        assert(raw.push(x).drop_first() =~= Seq::<i32>::empty());
        assert(raw.push(x)[0] == x);
        assert(spec_signals_trigger(raw) == Ok::<
            Option<WorkerTerminationSignal>,
            GracefulTerminationError,
        >(None));
        assert(spec_signals_trigger(raw.push(x).drop_first()) == Ok::<
            Option<WorkerTerminationSignal>,
            GracefulTerminationError,
        >(None));
    } else {
        assert(raw.push(x).drop_first() =~= raw.drop_first().push(x));
        assert(raw.push(x)[0] == raw[0]);
        lemma_signals_trigger_push(raw.drop_first(), x);
        assert(spec_signals_trigger(raw.push(x)) == (match WorkerTerminationSignal::spec_from_raw(
            raw[0],
        ) {
            None => Err(GracefulTerminationError::Signal),
            Some(s) => match spec_signals_trigger(raw.drop_first().push(x)) {
                Err(e) => Err(e),
                Ok(_) => Ok(Some(s)),
            },
        }));
    }
}

pub fn signals_trigger(raw: &[i32]) -> (r: Result<
    Option<WorkerTerminationSignal>,
    GracefulTerminationError,
>)
    ensures
        r == spec_signals_trigger(raw@),
{
    let mut first: Option<WorkerTerminationSignal> = None;
    let mut i: usize = 0;
    assert(raw@.subrange(0, 0) =~= Seq::<i32>::empty());
    while i < raw.len()
        invariant
            i <= raw@.len(),
            spec_signals_trigger(raw@.subrange(0, i as int)) == Ok::<
                Option<WorkerTerminationSignal>,
                GracefulTerminationError,
            >(first),
        decreases raw.len() - i,
    {
        proof {
            assert(raw@.subrange(0, i + 1) =~= raw@.subrange(0, i as int).push(raw@[i as int]));
            lemma_signals_trigger_push(raw@.subrange(0, i as int), raw@[i as int]);
        }
        match WorkerTerminationSignal::from_raw(raw[i]) {
            None => {
                proof {
                    lemma_signals_trigger_suffix_err(raw@, i as int);
                }
                return Err(GracefulTerminationError::Signal);
            },
            Some(s) => {
                if first.is_none() {
                    first = Some(s);
                }
            },
        }
        i += 1;
    }
    assert(raw@.subrange(0, raw@.len() as int) =~= raw@);
    Ok(first)
}

proof fn lemma_signals_trigger_suffix_err(raw: Seq<i32>, i: int)
    requires
        0 <= i < raw.len(),
        spec_signals_trigger(raw.subrange(0, i + 1)) == Err::<
            Option<WorkerTerminationSignal>,
            GracefulTerminationError,
        >(GracefulTerminationError::Signal),
    ensures
        spec_signals_trigger(raw) == Err::<
            Option<WorkerTerminationSignal>,
            GracefulTerminationError,
        >(GracefulTerminationError::Signal),
    decreases raw.len() - i,
{
    if i + 1 < raw.len() {
        assert(raw.subrange(0, i + 2) =~= raw.subrange(0, i + 1).push(raw[i + 1]));
        lemma_signals_trigger_push(raw.subrange(0, i + 1), raw[i + 1]);
        lemma_signals_trigger_suffix_err(raw, i + 1);
    } else {
        assert(raw.subrange(0, i + 1) =~= raw);
    }
}

/// The cause a wake-up of the session watch yields, by precedence: the
/// leader's exit, then the first worker signal, then a disconnected control
/// or supervisor channel, then an authenticated terminate request.
pub open spec fn spec_select_trigger(
    leader_exit: Option<LeaderExit>,
    signal: Option<WorkerTerminationSignal>,
    control_hangup: bool,
    supervisor_hangup: bool,
    terminate_requested: bool,
) -> Option<TerminationCause> {
    if leader_exit is Some {
        Some(TerminationCause::LeaderExited(leader_exit->0))
    } else if signal is Some {
        Some(TerminationCause::WorkerSignal(signal->0))
    } else if control_hangup || supervisor_hangup {
        Some(TerminationCause::SupervisorDisconnected)
    } else if terminate_requested {
        Some(TerminationCause::InternalTerminateRequest)
    } else {
        None
    }
}

pub fn select_trigger(
    leader_exit: Option<LeaderExit>,
    signal: Option<WorkerTerminationSignal>,
    control_hangup: bool,
    supervisor_hangup: bool,
    terminate_requested: bool,
) -> (r: Option<TerminationCause>)
    ensures
        r == spec_select_trigger(
            leader_exit,
            signal,
            control_hangup,
            supervisor_hangup,
            terminate_requested,
        ),
{
    match leader_exit {
        Some(exit) => {
            return Some(TerminationCause::LeaderExited(exit));
        },
        None => {},
    }
    match signal {
        Some(s) => {
            return Some(TerminationCause::WorkerSignal(s));
        },
        None => {},
    }
    if control_hangup || supervisor_hangup {
        return Some(TerminationCause::SupervisorDisconnected);
    }
    if terminate_requested {
        return Some(TerminationCause::InternalTerminateRequest);
    }
    None
}

/// What the session watch does with the cause a wake-up yielded.
#[derive(Debug, Clone, Copy, PartialEq, Eq, Structural)]
pub enum CauseAdmission {
    /// Nothing asked for termination.
    NoTrigger,
    /// A cause was already recorded; the new one is ignored.
    Duplicate,
    /// Record the cause and begin graceful termination.
    Begin(TerminationCause),
}

/// The first cause is the one that stands: a later trigger is a duplicate.
pub fn admit_cause(recorded: Option<TerminationCause>, trigger: Option<TerminationCause>) -> (r:
    CauseAdmission)
    ensures
        r == (match trigger {
            None => CauseAdmission::NoTrigger,
            Some(c) => if recorded is Some {
                CauseAdmission::Duplicate
            } else {
                CauseAdmission::Begin(c)
            },
        }),
{
    match trigger {
        None => CauseAdmission::NoTrigger,
        Some(c) => {
            if recorded.is_some() {
                CauseAdmission::Duplicate
            } else {
                CauseAdmission::Begin(c)
            }
        },
    }
}

/// The cause recorded after a wake-up.
pub open spec fn spec_recorded_after(
    recorded: Option<TerminationCause>,
    trigger: Option<TerminationCause>,
) -> Option<TerminationCause> {
    if recorded is Some {
        recorded
    } else {
        trigger
    }
}

/// The cause recorded after a sequence of wake-ups.
pub open spec fn spec_recorded_after_all(
    recorded: Option<TerminationCause>,
    triggers: Seq<Option<TerminationCause>>,
) -> Option<TerminationCause>
    decreases triggers.len(),
{
    if triggers.len() == 0 {
        recorded
    } else {
        spec_recorded_after_all(spec_recorded_after(recorded, triggers[0]), triggers.drop_first())
    }
}

/// Once a termination cause is recorded it stands, whatever triggers later
/// wake-ups bring; and the first trigger of a session is the cause.
pub proof fn lemma_first_cause_stands(
    recorded: Option<TerminationCause>,
    triggers: Seq<Option<TerminationCause>>,
)
    ensures
        recorded is Some ==> spec_recorded_after_all(recorded, triggers) == recorded,
        recorded is None && triggers.len() > 0 && triggers[0] is Some ==> spec_recorded_after_all(
            recorded,
            triggers,
        ) == triggers[0],
    decreases triggers.len(),
{
    if triggers.len() > 0 {
        lemma_first_cause_stands(spec_recorded_after(recorded, triggers[0]), triggers.drop_first());
    }
}

/// The result of a cooperative finalization after the empty proof: closing
/// PAM and releasing the VT must both succeed, and the session succeeded
/// only where its leader exited with status zero.
pub fn cooperative_finalization_result(
    pam_closed: bool,
    vt_released: bool,
    leader_exit: LeaderExit,
) -> (r: bool)
    ensures
        r == (pam_closed && vt_released && leader_exit == LeaderExit::ExitedZero),
{
    pam_closed && vt_released && matches!(leader_exit, LeaderExit::ExitedZero)
}

/// What a cooperative finalization releases: the pin on the payload unit,
/// the PAM transaction (closed, then dropped) and the session's VT.
pub trait CooperativeResources {
    /// Drops the reference on the pinned unit; `false` where that failed.
    fn release_pin(&mut self) -> bool;

    /// Closes and drops the PAM transaction; `false` where closing failed.
    fn close_pam(&mut self) -> bool;

    /// Releases the session VT; `false` where that failed.
    fn release_terminal(&mut self) -> bool;
}

/// A release of a cooperative finalization.
#[derive(Debug, Clone, Copy, PartialEq, Eq, Structural)]
pub enum FinalizationRequest {
    ReleasePin,
    ClosePam,
    ReleaseTerminal,
}

/// The release a cooperative finalization makes after `done` releases:
/// the pin first, then PAM, then the VT, each whatever the one before gave;
/// nothing after the third.
pub fn finalization_step(done: usize) -> (r: Option<FinalizationRequest>)
    ensures
        r == (if done == 0 {
            Some(FinalizationRequest::ReleasePin)
        } else if done == 1 {
            Some(FinalizationRequest::ClosePam)
        } else if done == 2 {
            Some(FinalizationRequest::ReleaseTerminal)
        } else {
            None::<FinalizationRequest>
        }),
{
    if done == 0 {
        Some(FinalizationRequest::ReleasePin)
    } else if done == 1 {
        Some(FinalizationRequest::ClosePam)
    } else if done == 2 {
        Some(FinalizationRequest::ReleaseTerminal)
    } else {
        None
    }
}

/// Ends a session whose boundary was proved empty with the releases
/// `finalization_step` asks for, in its order: the pin is released first,
/// then PAM is closed, then the VT is released, each whatever the one
/// before gave. The session succeeded only where PAM closed, the VT was
/// released and the leader exited with status zero.
pub fn finalize_cooperative_session<R: CooperativeResources>(
    resources: &mut R,
    proof: &BoundaryEmptyProof,
) -> (r: Result<(), crate::control::SessionError>)
    ensures
        exists|pam_closed: bool, vt_released: bool|
            #[trigger] cooperative_outcome(pam_closed, vt_released, proof@.leader_exit) == (r is Ok),
        r is Ok ==> proof@.leader_exit == LeaderExit::ExitedZero,
        r matches Err(e) ==> e == crate::control::SessionError::AuthenticatedSessionFailed,
{
    let mut pam_closed = false;
    let mut vt_released = false;
    let mut done: usize = 0;
    while done < 3
        invariant
            done <= 3,
        decreases 3 - done,
    {
        match finalization_step(done) {
            Some(FinalizationRequest::ReleasePin) => {
                let _ = resources.release_pin();
            },
            Some(FinalizationRequest::ClosePam) => {
                pam_closed = resources.close_pam();
            },
            Some(FinalizationRequest::ReleaseTerminal) => {
                vt_released = resources.release_terminal();
            },
            None => {},
        }
        done += 1;
    }
    let ok = cooperative_finalization_result(pam_closed, vt_released, proof.leader_exit());
    assert(cooperative_outcome(pam_closed, vt_released, proof@.leader_exit) == ok);
    if ok {
        Ok(())
    } else {
        Err(crate::control::SessionError::AuthenticatedSessionFailed)
    }
}

/// Whether a cooperative finalization succeeds, from what closing PAM and
/// releasing the VT answered and how the leader exited.
pub open spec fn cooperative_outcome(pam_closed: bool, vt_released: bool, leader_exit: LeaderExit) -> bool {
    pam_closed && vt_released && leader_exit == LeaderExit::ExitedZero
}

} // verus!
