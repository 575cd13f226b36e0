//! Failure taxonomy of the linking flow.

use vstd::prelude::*;

verus! {

/// Every way the linking flow can fail, from the user's first redirect to the
/// final metadata push.
#[derive(Clone, Copy, Debug, PartialEq, Eq, Structural)]
pub enum LinkError {
    /// The identity-provider callback carried a `state` value that does not
    /// match the CSRF nonce stored in the session (forged or stale request).
    InvalidState,
    /// The completion step was called while the session holds no pending
    /// authorization code, i.e. out of order (replayed or forged request).
    MissingHandoffState,
    /// An identity-provider or device-provider call failed: network error,
    /// non-success status, or a malformed response.
    UpstreamAuthError,
    /// The authenticated device-provider user has no access to the configured
    /// target device.
    UnauthorizedDevice,
    /// The transactional write of the linked accounts failed; nothing was
    /// persisted.
    PersistenceError,
    /// The post-persistence metadata push to the identity provider failed.
    MetadataPushError,
}

impl LinkError {
    /// The HTTP status class the flow surfaces for this failure: user-caused
    /// failures map to 400/401, everything else to a generic 500.
    pub fn http_status(&self) -> (status: u16)
        ensures
            status == self.spec_http_status(),
    {
        match self {
            LinkError::InvalidState => 400,
            LinkError::UnauthorizedDevice => 401,
            _ => 500,
        }
    }

    /// Status mapping: `InvalidState` and `UnauthorizedDevice` are the only
    /// user-facing 4xx outcomes.
    pub open spec fn spec_http_status(&self) -> u16 {
        match self {
            LinkError::InvalidState => 400u16,
            LinkError::UnauthorizedDevice => 401u16,
            _ => 500u16,
        }
    }

    /// Generic user-facing message; internal detail is never exposed.
    pub fn user_message(&self) -> (msg: &'static str)
        ensures
            self is InvalidState ==> msg@ == "invalid state"@,
            self is UnauthorizedDevice ==> msg@ == "unauthorized user"@,
            !(self is InvalidState) && !(self is UnauthorizedDevice) ==> msg@
                == "something bad happened"@,
    {
        match self {
            LinkError::InvalidState => "invalid state",
            LinkError::UnauthorizedDevice => "unauthorized user",
            _ => "something bad happened",
        }
    }
}

} // verus!
