//! The line protocol of the full-worker test harness: the events the worker
//! reports, the commands it waits for, and the modes the harness runs in.
use vstd::prelude::*;

use crate::launch::WorkerLaunchPhase;
use crate::logind::{LogindError, LogindSessionId, LogindSessionIdentity};
use crate::text::{str_bytes, text_equal, utf8_bytes};

verus! {

/// Longest event, in bytes, the harness is sent.
pub const MAX_FIXTURE_EVENT_BYTES: usize = 192;

/// Longest command line, in bytes with its newline, the harness may send.
pub const MAX_FIXTURE_COMMAND_BYTES: usize = 64;

/// The line an event is sent as: the event and a newline. Events longer
/// than 192 bytes, or holding a newline, are not sent.
pub open spec fn spec_fixture_event_frame(event: Seq<u8>) -> Option<Seq<u8>> {
    if event.len() > MAX_FIXTURE_EVENT_BYTES || event.contains(10u8) {
        None
    } else {
        Some(event.push(10u8))
    }
}

/// The line to send the harness for an event, if the event may be sent.
pub fn emit_fixture_event(event: &str) -> (r: Option<Vec<u8>>)
    ensures
        match spec_fixture_event_frame(utf8_bytes(event@)) {
            Some(frame) => r matches Some(v) && v@ == frame,
            None => r is None,
        },
{
    let bytes = str_bytes(event);
    if bytes.len() > MAX_FIXTURE_EVENT_BYTES {
        return None;
    }
    let mut frame: Vec<u8> = Vec::new();
    let mut i: usize = 0;
    while i < bytes.len()
        invariant
            i <= bytes@.len(),
            bytes@ == utf8_bytes(event@),
            bytes@.len() <= MAX_FIXTURE_EVENT_BYTES,
            frame@ == bytes@.subrange(0, i as int),
            forall|j: int| 0 <= j < i ==> bytes@[j] != 10u8,
        decreases bytes.len() - i,
    {
        if bytes[i] == 10u8 {
            assert(bytes@.contains(10u8)) by {
                assert(bytes@[i as int] == 10u8);
            }
            return None;
        }
        frame.push(bytes[i]);
        i += 1;
    }
    assert(bytes@.subrange(0, bytes@.len() as int) =~= bytes@);
    frame.push(10u8);
    Some(frame)
}

/// Every line sent to the harness is a single line of at most 193 bytes,
/// and the harness's own commands share that shape: a short event sent as a
/// line is accepted back as the command of the same text.
pub proof fn lemma_fixture_frames_are_single_lines(event: Seq<u8>)
    ensures
        spec_fixture_event_frame(event) matches Some(frame) ==> {
            &&& frame.len() <= MAX_FIXTURE_EVENT_BYTES + 1
            &&& frame.last() == 10u8
            &&& !frame.drop_last().contains(10u8)
            &&& frame.drop_last() == event
        },
        spec_fixture_event_frame(event) matches Some(frame) ==> (frame.len()
            <= MAX_FIXTURE_COMMAND_BYTES ==> spec_fixture_command_accepted(
            frame.len() as usize,
            frame,
            event,
        )),
{
    if let Some(frame) = spec_fixture_event_frame(event) {
        assert(frame.drop_last() =~= event);
    }
}

/// A command line from the harness is the expected command: something was
/// read, at most 64 bytes, ending in a newline, and before the newline
/// exactly the expected text.
pub open spec fn spec_fixture_command_accepted(count: usize, line: Seq<u8>, expected: Seq<u8>) -> bool {
    &&& count > 0
    &&& line.len() <= MAX_FIXTURE_COMMAND_BYTES
    &&& line.len() > 0
    &&& line.last() == 10u8
    &&& line.drop_last() == expected
}

pub fn fixture_command_accepted(count: usize, line: &[u8], expected: &str) -> (r: bool)
    ensures
        r == spec_fixture_command_accepted(count, line@, utf8_bytes(expected@)),
{
    if count == 0 || line.len() > MAX_FIXTURE_COMMAND_BYTES || line.len() == 0 {
        return false;
    }
    if line[line.len() - 1] != 10u8 {
        return false;
    }
    let body = &line[0..line.len() - 1];
    let want = str_bytes(expected);
    assert(body@ =~= line@.drop_last());
    if body.len() != want.len() {
        return false;
    }
    let mut i: usize = 0;
    while i < body.len()
        invariant
            i <= body@.len(),
            body@.len() == want@.len(),
            body@ == line@.drop_last(),
            want@ == utf8_bytes(expected@),
            forall|j: int| 0 <= j < i ==> body@[j] == want@[j],
        decreases body.len() - i,
    {
        if body[i] != want[i] {
            return false;
        }
        i += 1;
    }
    assert(body@ =~= want@);
    true
}

/// The scenarios the full-worker harness can run.
#[derive(Debug, Clone, Copy, PartialEq, Eq, Structural)]
pub enum FixtureMode {
    Cooperative,
    NonCooperative,
    BarrierA,
    BarrierB,
    BarrierCReleased,
    BarrierCRecovery,
    InvalidationBeforeKill,
    ReplacementDuringProof,
    BusLossBeforeKill,
}

impl FixtureMode {
    /// The mode a harness argument names.
    pub fn parse(mode: &str) -> (r: Option<FixtureMode>)
        ensures
            r == (if mode@ == "cooperative"@ {
                Some(FixtureMode::Cooperative)
            } else if mode@ == "non-cooperative"@ {
                Some(FixtureMode::NonCooperative)
            } else if mode@ == "barrier-a"@ {
                Some(FixtureMode::BarrierA)
            } else if mode@ == "barrier-b"@ {
                Some(FixtureMode::BarrierB)
            } else if mode@ == "barrier-c-released"@ {
                Some(FixtureMode::BarrierCReleased)
            } else if mode@ == "barrier-c-recovery"@ {
                Some(FixtureMode::BarrierCRecovery)
            } else if mode@ == "invalidation-before-kill"@ {
                Some(FixtureMode::InvalidationBeforeKill)
            } else if mode@ == "replacement-during-proof"@ {
                Some(FixtureMode::ReplacementDuringProof)
            } else if mode@ == "bus-loss-before-kill"@ {
                Some(FixtureMode::BusLossBeforeKill)
            } else {
                None
            }),
    {
        if text_equal(mode, "cooperative") {
            Some(FixtureMode::Cooperative)
        } else if text_equal(mode, "non-cooperative") {
            Some(FixtureMode::NonCooperative)
        } else if text_equal(mode, "barrier-a") {
            Some(FixtureMode::BarrierA)
        } else if text_equal(mode, "barrier-b") {
            Some(FixtureMode::BarrierB)
        } else if text_equal(mode, "barrier-c-released") {
            Some(FixtureMode::BarrierCReleased)
        } else if text_equal(mode, "barrier-c-recovery") {
            Some(FixtureMode::BarrierCRecovery)
        } else if text_equal(mode, "invalidation-before-kill") {
            Some(FixtureMode::InvalidationBeforeKill)
        } else if text_equal(mode, "replacement-during-proof") {
            Some(FixtureMode::ReplacementDuringProof)
        } else if text_equal(mode, "bus-loss-before-kill") {
            Some(FixtureMode::BusLossBeforeKill)
        } else {
            None
        }
    }

    pub open spec fn spec_barrier(self) -> Option<WorkerLaunchPhase> {
        match self {
            FixtureMode::BarrierA => Some(WorkerLaunchPhase::PendingHandoffBeforeScope),
            FixtureMode::BarrierB => Some(WorkerLaunchPhase::ScopePinnedBeforeAck),
            FixtureMode::BarrierCReleased | FixtureMode::BarrierCRecovery => Some(
                WorkerLaunchPhase::AckReceivedBeforeCommitExec,
            ),
            _ => None,
        }
    }

    /// The launch phase at which the mode holds the worker.
    pub fn barrier(self) -> (r: Option<WorkerLaunchPhase>)
        ensures
            r == self.spec_barrier(),
    {
        match self {
            FixtureMode::BarrierA => Some(WorkerLaunchPhase::PendingHandoffBeforeScope),
            FixtureMode::BarrierB => Some(WorkerLaunchPhase::ScopePinnedBeforeAck),
            FixtureMode::BarrierCReleased | FixtureMode::BarrierCRecovery => Some(
                WorkerLaunchPhase::AckReceivedBeforeCommitExec,
            ),
            _ => None,
        }
    }

    /// Modes that hold the worker need the scope registered.
    pub fn requires_registration(self) -> (r: bool)
        ensures
            r == self.spec_barrier() is Some,
    {
        self.barrier().is_some()
    }

    /// Whether the mode holds the worker at `phase`.
    pub fn holds_at(self, phase: WorkerLaunchPhase) -> (r: bool)
        ensures
            r == (self.spec_barrier() == Some(phase)),
    {
        match self.barrier() {
            Some(p) => p == phase,
            None => false,
        }
    }
}

/// The name a launch phase has in harness events and commands.
pub fn launch_phase_name(phase: WorkerLaunchPhase) -> (r: &'static str)
    ensures
        r@ == (match phase {
            WorkerLaunchPhase::PendingHandoffBeforeScope => "PendingHandoffBeforeScope"@,
            WorkerLaunchPhase::ScopePinnedBeforeAck => "ScopePinnedBeforeAck"@,
            WorkerLaunchPhase::AckReceivedBeforeCommitExec => "AckReceivedBeforeCommitExec"@,
        }),
{
    match phase {
        WorkerLaunchPhase::PendingHandoffBeforeScope => "PendingHandoffBeforeScope",
        WorkerLaunchPhase::ScopePinnedBeforeAck => "ScopePinnedBeforeAck",
        WorkerLaunchPhase::AckReceivedBeforeCommitExec => "AckReceivedBeforeCommitExec",
    }
}

/// The logind session the harness reports for the worker and its child.
pub fn fixture_logind_identity() -> (r: Result<LogindSessionIdentity, LogindError>)
    ensures
        r is Ok ==> {
            let identity = r->Ok_0;
            &&& identity.uid == 1000
            &&& identity.id@ == "fixture-session"@
            &&& identity.session_type@ == "wayland"@
            &&& identity.class@ == "user"@
            &&& identity.desktop is Some && identity.desktop->0@ == "niri"@
            &&& identity.seat is Some && identity.seat->0@ == "seat0"@
            &&& identity.vtnr == Some(1u32)
        },
        r matches Err(e) ==> e == LogindError::InvalidSessionId,
{
    let id = match LogindSessionId::new(String::from_str("fixture-session")) {
        Ok(id) => id,
        Err(e) => {
            return Err(e);
        },
    };
    Ok(
        LogindSessionIdentity {
            id,
            uid: 1000,
            session_type: String::from_str("wayland"),
            class: String::from_str("user"),
            desktop: Some(String::from_str("niri")),
            seat: Some(String::from_str("seat0")),
            vtnr: Some(1),
        },
    )
}

/// The grace period a harness sets, in milliseconds: saturated to `u64`
/// and at least one.
pub fn fixture_grace_millis(millis: u128) -> (r: u64)
    ensures
        r == (if millis > u64::MAX {
            u64::MAX
        } else if millis == 0 {
            1
        } else {
            millis as u64
        }),
{
    if millis > u64::MAX as u128 {
        u64::MAX
    } else if millis == 0 {
        1
    } else {
        millis as u64
    }
}

} // verus!
