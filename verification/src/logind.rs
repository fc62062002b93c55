//! logind session identities and the rules the worker applies to the answers
//! of `sd_pid_get_session` and friends.
use vstd::prelude::*;

use crate::text::{has_byte, string_bytes, utf8_bytes};

verus! {

/// Longest session id, in bytes, that the worker accepts.
pub const MAX_SESSION_ID_BYTES: usize = 128;

/// `ENODATA` on Linux.
pub const LINUX_ENODATA: i32 = 61;

/// `ENXIO` on Linux.
pub const LINUX_ENXIO: i32 = 6;

/// `ENOENT` on Linux.
pub const LINUX_ENOENT: i32 = 2;

/// A logind session id: non-empty, at most 128 bytes, without NUL.
#[derive(Debug)]
pub struct LogindSessionId(String);

impl View for LogindSessionId {
    type V = Seq<char>;

    closed spec fn view(&self) -> Seq<char> {
        self.0@
    }
}

/// The rule a session id must meet, over its UTF-8 bytes.
pub open spec fn valid_session_id(bytes: Seq<u8>) -> bool {
    &&& bytes.len() > 0
    &&& bytes.len() <= MAX_SESSION_ID_BYTES
    &&& !bytes.contains(0u8)
}

impl LogindSessionId {
    /// Accepts `value` exactly when it is non-empty, at most 128 bytes long
    /// and free of NUL bytes.
    pub fn new(value: String) -> (r: Result<Self, LogindError>)
        ensures
            valid_session_id(utf8_bytes(value@)) <==> r is Ok,
            r matches Ok(id) ==> id@ == value@,
            r matches Err(e) ==> e == LogindError::InvalidSessionId,
    {
        let bytes = string_bytes(&value);
        if bytes.len() == 0 || bytes.len() > MAX_SESSION_ID_BYTES || has_byte(bytes, 0u8) {
            return Err(LogindError::InvalidSessionId);
        }
        Ok(LogindSessionId(value))
    }

    pub fn as_str(&self) -> (r: &str)
        ensures
            r@ == self@,
    {
        self.0.as_str()
    }

    /// Equality of two session ids.
    pub fn same_as(&self, other: &LogindSessionId) -> (r: bool)
        ensures
            r == (self@ == other@),
    {
        self.0 == other.0
    }
}

impl PartialEq for LogindSessionId {
    fn eq(&self, other: &LogindSessionId) -> (r: bool) {
        self.0 == other.0
    }
}

impl vstd::std_specs::cmp::PartialEqSpecImpl for LogindSessionId {
    open spec fn obeys_eq_spec() -> bool {
        true
    }

    open spec fn eq_spec(&self, other: &LogindSessionId) -> bool {
        self@ == other@
    }
}

impl Eq for LogindSessionId {
}

impl Clone for LogindSessionId {
    fn clone(&self) -> (r: Self)
        ensures
            r@ == self@,
    {
        LogindSessionId(self.0.clone())
    }
}

/// What logind reports about one session.
#[derive(Debug, Clone)]
pub struct LogindSessionIdentity {
    pub id: LogindSessionId,
    pub uid: u32,
    pub session_type: String,
    pub class: String,
    pub desktop: Option<String>,
    pub seat: Option<String>,
    pub vtnr: Option<u32>,
}

#[derive(Debug, Clone, PartialEq, Eq)]
pub enum LogindError {
    Unavailable,
    InvalidSessionId,
    QueryFailed { operation: &'static str, result: i32 },
}

/// Answers the worker's questions about logind sessions.
pub trait LogindSessionResolver: Send + Sync {
    fn resolve_by_pid(&self, pid: u32) -> Result<Option<LogindSessionIdentity>, LogindError>;

    fn resolve_by_id(&self, id: &LogindSessionId) -> Result<
        Option<LogindSessionIdentity>,
        LogindError,
    >;
}

pub open spec fn spec_no_session_result(result: i32) -> bool {
    result == -LINUX_ENODATA || result == -LINUX_ENXIO || result == -LINUX_ENOENT
}

/// `sd_pid_get_session` reports a process outside any session as `-ENODATA`
/// (older systemd: `-ENXIO`), and a process that vanished as `-ENOENT`.
pub fn pid_has_no_logind_session(result: i32) -> (r: bool)
    ensures
        r == spec_no_session_result(result),
{
    result == -LINUX_ENODATA || result == -LINUX_ENXIO || result == -LINUX_ENOENT
}

/// The VT number of a session from the status and value that
/// `sd_session_get_vt` gave: none where the query failed or gave zero.
pub fn vtnr_from_query(status: i32, value: u32) -> (r: Option<u32>)
    ensures
        r == (if status < 0 || value == 0 {
            None
        } else {
            Some(value)
        }),
{
    if status < 0 || value == 0 {
        None
    } else {
        Some(value)
    }
}

/// The outcome of one string query of logind: the error where the call
/// failed or left no value, `None` where the value can be read.
pub fn string_query_failure(operation: &'static str, status: i32, value_present: bool) -> (r: Option<
    LogindError,
>)
    ensures
        (r is Some) == (status < 0 || !value_present),
        r matches Some(e) ==> (e matches LogindError::QueryFailed { operation: op, result } && op@
            == operation@ && result == status),
{
    if status < 0 || !value_present {
        Some(LogindError::QueryFailed { operation, result: status })
    } else {
        None
    }
}

} // verus!
