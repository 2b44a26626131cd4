//! Session policy of the connection pool: how a session to the bastion host
//! is authenticated, and when a pooled session counts as still alive.
//!
//! The transport itself (connecting, running the probe command) is the
//! caller's concern; the decisions over its results are made here.

use vstd::prelude::*;
use vstd::string::*;

verus! {

/// Connection parameters of one remote bastion host.
#[derive(Debug, Clone)]
pub struct SessionManager {
    pub host: String,
    pub port: String,
    pub login: String,
    pub password: Option<String>,
    pub key_file: Option<String>,
}

/// How a new session authenticates: a configured password wins over a key
/// file; with neither, the session stays unauthenticated.
#[derive(Debug, Clone, PartialEq, Eq, Structural)]
pub enum AuthMethod {
    Password,
    KeyFile,
    Unauthenticated,
}

impl SessionManager {
    /// The transport endpoint, `host:port`.
    pub fn endpoint(&self) -> (r: String)
        ensures
            r@ == self.host@ + ":"@ + self.port@,
    {
        let mut s = self.host.clone();
        s.append(":");
        s.append(self.port.as_str());
        proof {
            assert(s@ =~= self.host@ + ":"@ + self.port@);
        }
        s
    }

    /// Which authentication a fresh session uses.
    pub fn auth_method(&self) -> (r: AuthMethod)
        ensures
            r == self.spec_auth_method(),
    {
        if self.password.is_some() {
            AuthMethod::Password
        } else if self.key_file.is_some() {
            AuthMethod::KeyFile
        } else {
            AuthMethod::Unauthenticated
        }
    }

    pub open spec fn spec_auth_method(self) -> AuthMethod {
        if self.password is Some {
            AuthMethod::Password
        } else if self.key_file is Some {
            AuthMethod::KeyFile
        } else {
            AuthMethod::Unauthenticated
        }
    }
}

/// The sole health-check signal of a pooled session: the probe command's
/// captured output, or nothing when running the probe itself failed.
/// The session is valid exactly when the probe produced non-empty output.
pub open spec fn spec_session_valid(probe_output: Option<Seq<char>>) -> bool {
    probe_output matches Some(out) && out.len() > 0
}

/// Decides validity of a session from the probe command's result.
pub fn session_is_valid(probe_output: Option<&String>) -> (r: bool)
    ensures
        r == spec_session_valid(probe_output.deep_view()),
{
    match probe_output {
        Some(out) => !out.as_str().is_empty(),
        None => false,
    }
}

/// A session is broken exactly when it is not valid; the pool discards such
/// a session before every checkout and check-in.
pub fn session_has_broken(probe_output: Option<&String>) -> (r: bool)
    ensures
        r == !spec_session_valid(probe_output.deep_view()),
{
    !session_is_valid(probe_output)
}

/// The probe command run to decide a session's health.
pub fn probe_command() -> (r: String)
    ensures
        r@ == "echo TEST"@,
{
    "echo TEST".to_owned()
}

} // verus!
