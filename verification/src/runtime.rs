//! The decisions of the worker around a PAM session: the checks of the
//! runtime directory, of the logind session and of the owned terminal.
use vstd::prelude::*;

use crate::logind::LogindSessionIdentity;
use crate::text::text_equal;

verus! {

#[derive(Debug, Clone, Copy, PartialEq, Eq, Structural)]
pub enum RuntimeDirValidationError {
    InvalidPath,
    InvalidMetadata,
    WrongOwnerOrMode,
}

/// Checks the runtime directory PAM gave for the user.
pub trait RuntimeDirValidator: Send + Sync {
    /// `path` is the directory's path, as raw bytes.
    fn validate(&self, path: &[u8], uid: u32) -> Result<(), RuntimeDirValidationError>;
}

/// Accepts every runtime directory; for test harnesses.
#[derive(Debug, Clone, Copy, Default)]
pub struct StubRuntimeDirValidator;

impl RuntimeDirValidator for StubRuntimeDirValidator {
    fn validate(&self, path: &[u8], uid: u32) -> (r: Result<(), RuntimeDirValidationError>)
        ensures
            r == Ok::<(), RuntimeDirValidationError>(()),
    {
        Ok(())
    }
}

/// What the metadata of a path says.
#[derive(Debug, Clone, Copy, PartialEq, Eq, Structural)]
pub struct PathFacts {
    pub is_symlink: bool,
    pub is_dir: bool,
    pub uid: u32,
    pub mode: u32,
}

/// The decision on a runtime directory: an absolute path, itself a
/// directory and no symbolic link, owned by `uid` with permissions exactly
/// `0700`. `link` is what `symlink_metadata` read and `target` what
/// `metadata` read; `None` where the read failed.
pub open spec fn spec_runtime_dir_verdict(
    path: Seq<u8>,
    link: Option<PathFacts>,
    target: Option<PathFacts>,
    uid: u32,
) -> Result<(), RuntimeDirValidationError> {
    if !(path.len() > 0 && path[0] == 47u8) {
        Err(RuntimeDirValidationError::InvalidPath)
    } else {
        match link {
            None => Err(RuntimeDirValidationError::InvalidMetadata),
            Some(l) => if l.is_symlink || !l.is_dir {
                Err(RuntimeDirValidationError::InvalidMetadata)
            } else {
                match target {
                    None => Err(RuntimeDirValidationError::InvalidMetadata),
                    Some(t) => if !t.is_dir || t.uid != uid || t.mode & 0o7777u32 != 0o700u32 {
                        Err(RuntimeDirValidationError::WrongOwnerOrMode)
                    } else {
                        Ok(())
                    },
                }
            },
        }
    }
}

pub fn check_runtime_dir(
    path: &[u8],
    link: Option<PathFacts>,
    target: Option<PathFacts>,
    uid: u32,
) -> (r: Result<(), RuntimeDirValidationError>)
    ensures
        r == spec_runtime_dir_verdict(path@, link, target, uid),
{
    if !(path.len() > 0 && path[0] == 47u8) {
        return Err(RuntimeDirValidationError::InvalidPath);
    }
    let l = match link {
        None => {
            return Err(RuntimeDirValidationError::InvalidMetadata);
        },
        Some(l) => l,
    };
    if l.is_symlink || !l.is_dir {
        return Err(RuntimeDirValidationError::InvalidMetadata);
    }
    let t = match target {
        None => {
            return Err(RuntimeDirValidationError::InvalidMetadata);
        },
        Some(t) => t,
    };
    if !t.is_dir || t.uid != uid || t.mode & 0o7777u32 != 0o700u32 {
        return Err(RuntimeDirValidationError::WrongOwnerOrMode);
    }
    Ok(())
}

/// A logind session is the one the worker opened: the user's, of the
/// expected type and of class `user`, for the requested desktop where
/// logind names one, on the owned seat and VT.
pub open spec fn spec_valid_logind_identity(
    identity: LogindSessionIdentity,
    uid: u32,
    expected_type: Seq<char>,
    desktop: Seq<char>,
    expected_seat: Seq<char>,
    expected_vtnr: u32,
) -> bool {
    &&& identity.uid == uid
    &&& identity.session_type@ == expected_type
    &&& identity.class@ == "user"@
    &&& (identity.desktop matches Some(d) ==> d@ == desktop)
    &&& (identity.seat matches Some(s) && s@ == expected_seat)
    &&& identity.vtnr == Some(expected_vtnr)
}

pub fn valid_logind_identity(
    identity: &LogindSessionIdentity,
    uid: u32,
    expected_type: &str,
    desktop: &str,
    expected_seat: &str,
    expected_vtnr: u32,
) -> (r: bool)
    ensures
        r == spec_valid_logind_identity(
            *identity,
            uid,
            expected_type@,
            desktop@,
            expected_seat@,
            expected_vtnr,
        ),
{
    if identity.uid != uid {
        return false;
    }
    if !text_equal(identity.session_type.as_str(), expected_type) {
        return false;
    }
    if !text_equal(identity.class.as_str(), "user") {
        return false;
    }
    match &identity.desktop {
        Some(d) => {
            if !text_equal(d.as_str(), desktop) {
                return false;
            }
        },
        None => {},
    }
    match &identity.seat {
        Some(s) => {
            if !text_equal(s.as_str(), expected_seat) {
                return false;
            }
        },
        None => {
            return false;
        },
    }
    match identity.vtnr {
        Some(v) => v == expected_vtnr,
        None => false,
    }
}

/// The process identity of the session leader after its exec.
#[derive(Debug, Clone, Copy, PartialEq, Eq, Structural)]
pub struct SessionProcessIdentity {
    pub pid: u32,
    pub sid: u32,
    pub pgid: u32,
}

/// What the session child reported of its controlling terminal.
#[derive(Debug, Clone, PartialEq, Eq)]
pub struct SessionChildTerminalProof {
    pub seat: String,
    pub vtnr: u32,
    pub fd: i32,
    pub device_major: u32,
    pub device_minor: u32,
    pub controlling_sid: u32,
    pub foreground_pgid: u32,
}

/// Major device number of the Linux virtual consoles.
pub const VT_DEVICE_MAJOR: u32 = 4;

/// Descriptor the session child holds its terminal on.
pub const SESSION_TERMINAL_FD: i32 = 3;

/// The terminal the child reported is the owned VT: the expected seat and
/// number, on descriptor 3, the console device `4:vtnr`, controlled by the
/// child's session with its process group in the foreground.
pub open spec fn spec_valid_terminal_proof(
    terminal: Option<SessionChildTerminalProof>,
    process: SessionProcessIdentity,
    expected_seat: Seq<char>,
    expected_vtnr: u32,
) -> bool {
    &&& terminal is Some
    &&& terminal->0.seat@ == expected_seat
    &&& terminal->0.vtnr == expected_vtnr
    &&& terminal->0.fd == SESSION_TERMINAL_FD
    &&& terminal->0.device_major == VT_DEVICE_MAJOR
    &&& terminal->0.device_minor == expected_vtnr
    &&& terminal->0.controlling_sid == process.sid
    &&& terminal->0.foreground_pgid == process.pgid
}

pub fn valid_terminal_proof(
    terminal: &Option<SessionChildTerminalProof>,
    process: &SessionProcessIdentity,
    expected_seat: &str,
    expected_vtnr: u32,
) -> (r: bool)
    ensures
        r == spec_valid_terminal_proof(*terminal, *process, expected_seat@, expected_vtnr),
{
    match terminal {
        None => false,
        Some(p) => text_equal(p.seat.as_str(), expected_seat) && p.vtnr == expected_vtnr && p.fd
            == SESSION_TERMINAL_FD && p.device_major == VT_DEVICE_MAJOR && p.device_minor
            == expected_vtnr && p.controlling_sid == process.sid && p.foreground_pgid
            == process.pgid,
    }
}

} // verus!
