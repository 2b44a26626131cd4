//! Error taxonomy of the harvester, and the retry policy over it.

use vstd::prelude::*;

verus! {

/// Every way a harvest run can fail.
#[derive(Debug, Clone, Copy, PartialEq, Eq, Structural)]
pub enum HarvestError {
    /// Connect or protocol handshake failure on the remote transport.
    Transport,
    /// The remote host rejected the credentials.
    Authentication,
    /// No pooled session became free within the checkout timeout.
    PoolExhausted,
    /// A remote command failed or returned unusable output.
    RemoteExecution,
    /// Malformed base64 or certificate material.
    Decode,
    /// TLS handshake or certificate failure against the cluster API.
    Tls,
    /// Non-2xx response or malformed JSON from the cluster API.
    Api,
    /// A required configuration value (time window, credentials) is missing.
    Configuration,
}

impl HarvestError {
    /// Only transient execution failures are retried; every other kind
    /// indicates a non-transient misconfiguration and propagates at once.
    pub fn is_retryable(&self) -> (r: bool)
        ensures
            r == self.spec_retryable(),
    {
        match self {
            HarvestError::RemoteExecution => true,
            HarvestError::Transport => true,
            HarvestError::PoolExhausted => true,
            _ => false,
        }
    }

    pub open spec fn spec_retryable(self) -> bool {
        self is RemoteExecution || self is Transport || self is PoolExhausted
    }
}

} // verus!
