//! Errors of the library that belong to no single service.

use vstd::prelude::*;
use vstd::string::*;

use crate::text::{decimal, show_u64};
use crate::text::{contains_text, parts_stand_where_they_are};
use crate::text::longer_texts_contain_the_same;

verus! {

/// Errors produced by the AgentMesh core domain layer.
#[derive(Debug, PartialEq, Eq)]
pub enum CoreError {
    AgentNotFound(String),
    InvalidInput(String),
}

impl CoreError {
    /// The message of the error.
    pub fn message(&self) -> (r: String)
        ensures
            match *self {
                CoreError::AgentNotFound(agent) => r@ == "agent `"@ + agent@ + "` not found"@,
                CoreError::InvalidInput(reason) => r@ == "invalid input: "@ + reason@,
            },
    {
        match self {
            CoreError::AgentNotFound(agent) => "agent `".to_owned().concat(agent.as_str()).concat(
                "` not found",
            ),
            CoreError::InvalidInput(reason) => "invalid input: ".to_owned().concat(reason.as_str()),
        }
    }
}

/// Errors produced by the daemon and its client. An error of the operating
/// system is carried by its message.
#[derive(Debug, PartialEq, Eq)]
pub enum DaemonError {
    NotRunning,
    LockHeldNotResponding,
    Spawn(String),
    StartupTimeout(u64),
    ProtocolMismatch,
    Unauthorized,
    Api { code: String, message: String },
    Http(String),
    Io(String),
    Other(String),
}

/// The message of a daemon error.
pub open spec fn daemon_error_text(e: DaemonError) -> Seq<char> {
    match e {
        DaemonError::NotRunning => "daemon is not running for this scope"@,
        DaemonError::LockHeldNotResponding => "daemon lock is held but daemon is not responding"@,
        DaemonError::Spawn(reason) => "failed to start daemon process: "@ + reason@,
        DaemonError::StartupTimeout(seconds) => "daemon did not become healthy within "@ + decimal(
            seconds as nat,
        ) + "s"@,
        DaemonError::ProtocolMismatch =>
            "daemon protocol version mismatch; restart the AgentMesh daemon"@,
        DaemonError::Unauthorized => "daemon authentication failed"@,
        DaemonError::Api { code, message } => "daemon api error ("@ + code@ + "): "@ + message@,
        DaemonError::Http(reason) => "http error: "@ + reason@,
        DaemonError::Io(reason) => "io error: "@ + reason@,
        DaemonError::Other(reason) => reason@,
    }
}

impl DaemonError {
    /// An error that the daemon's API answered with.
    pub fn api(code: String, message: String) -> (r: Self)
        ensures
            r == (DaemonError::Api { code, message }),
    {
        DaemonError::Api { code, message }
    }

    /// The message of the error.
    pub fn message(&self) -> (r: String)
        ensures
            r@ == daemon_error_text(*self),
    {
        match self {
            DaemonError::NotRunning => "daemon is not running for this scope".to_owned(),
            DaemonError::LockHeldNotResponding =>
                "daemon lock is held but daemon is not responding".to_owned(),
            DaemonError::Spawn(reason) => "failed to start daemon process: ".to_owned().concat(
                reason.as_str(),
            ),
            DaemonError::StartupTimeout(seconds) =>
                "daemon did not become healthy within ".to_owned().concat(
                show_u64(*seconds).as_str(),
            ).concat("s"),
            DaemonError::ProtocolMismatch =>
                "daemon protocol version mismatch; restart the AgentMesh daemon".to_owned(),
            DaemonError::Unauthorized => "daemon authentication failed".to_owned(),
            DaemonError::Api { code, message } => "daemon api error (".to_owned().concat(
                code.as_str(),
            ).concat("): ").concat(message.as_str()),
            DaemonError::Http(reason) => "http error: ".to_owned().concat(reason.as_str()),
            DaemonError::Io(reason) => "io error: ".to_owned().concat(reason.as_str()),
            DaemonError::Other(reason) => reason.clone(),
        }
    }
}

/// Why the lock of a scope was not acquired. An error of the operating system
/// is carried by its message.
#[derive(Debug, PartialEq, Eq)]
pub enum LockError {
    Open { path: String, source: String },
    Held { path: String },
}

/// The message of a lock error.
pub open spec fn lock_error_text(e: LockError) -> Seq<char> {
    match e {
        LockError::Open { path, source } => "failed to open lock file `"@ + path@ + "`: "@
            + source@,
        LockError::Held { path } => "daemon lock is held by another process (path: "@ + path@
            + ")"@,
    }
}

impl LockError {
    /// The message of the error.
    pub fn message(&self) -> (r: String)
        ensures
            r@ == lock_error_text(*self),
    {
        match self {
            LockError::Open { path, source } => "failed to open lock file `".to_owned().concat(
                path.as_str(),
            ).concat("`: ").concat(source.as_str()),
            LockError::Held { path } =>
                "daemon lock is held by another process (path: ".to_owned().concat(
                path.as_str(),
            ).concat(")"),
        }
    }

    /// What a daemon that cannot acquire the lock of its scope ends with.
    pub fn startup_message(&self, scope_label: &str) -> (r: String)
        ensures
            match *self {
                LockError::Held { .. } => r@
                    == "AgentMesh daemon is already running for this scope ("@ + scope_label@
                    + ")."@,
                LockError::Open { .. } => r@ == lock_error_text(*self),
            },
    {
        match self {
            LockError::Held { .. } =>
                "AgentMesh daemon is already running for this scope (".to_owned().concat(
                scope_label,
            ).concat(")."),
            LockError::Open { .. } => self.message(),
        }
    }
}

/// The message of an error names what the error is about: codes, messages, times
/// and reasons.
pub proof fn daemon_messages_name_their_subject(e: DaemonError)
    ensures
        e matches DaemonError::Spawn(reason) ==> contains_text(daemon_error_text(e), reason@),
        e matches DaemonError::StartupTimeout(seconds)
            ==> contains_text(daemon_error_text(e), decimal(seconds as nat)),
        e matches DaemonError::Api { code, message }
            ==> contains_text(daemon_error_text(e), code@)
            && contains_text(daemon_error_text(e), message@),
        e matches DaemonError::Http(reason) ==> contains_text(daemon_error_text(e), reason@),
        e matches DaemonError::Io(reason) ==> contains_text(daemon_error_text(e), reason@),
{
    match e {
        DaemonError::Spawn(reason) => {
            let t0 = "failed to start daemon process: "@;
            let t1 = t0 + reason@;
            assert(daemon_error_text(e) == t1);
            told_last(t0, reason@);
        },
        DaemonError::StartupTimeout(seconds) => {
            let t0 = "daemon did not become healthy within "@;
            let t1 = t0 + decimal(seconds as nat);
            let t2 = t1 + "s"@;
            assert(daemon_error_text(e) == t2);
            told_last(t0, decimal(seconds as nat));
            longer_texts_contain_the_same(t1, decimal(seconds as nat), "s"@);
        },
        DaemonError::Api { code, message } => {
            let t0 = "daemon api error ("@;
            let t1 = t0 + code@;
            let t2 = t1 + "): "@;
            let t3 = t2 + message@;
            assert(daemon_error_text(e) == t3);
            told_last(t0, code@);
            longer_texts_contain_the_same(t1, code@, "): "@);
            longer_texts_contain_the_same(t2, code@, message@);
            told_last(t2, message@);
        },
        DaemonError::Http(reason) => {
            let t0 = "http error: "@;
            let t1 = t0 + reason@;
            assert(daemon_error_text(e) == t1);
            told_last(t0, reason@);
        },
        DaemonError::Io(reason) => {
            let t0 = "io error: "@;
            let t1 = t0 + reason@;
            assert(daemon_error_text(e) == t1);
            told_last(t0, reason@);
        },
        _ => {},
    }
}

proof fn told_last(head: Seq<char>, part: Seq<char>)
    ensures
        contains_text(head + part, part),
{
    parts_stand_where_they_are(head, part, Seq::empty());
    assert(head + part + Seq::<char>::empty() =~= head + part);
}

} // verus!
