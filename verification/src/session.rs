//! Per-browser correlation state for one flow attempt.
//!
//! The session is a short-lived, tamper-evident store scoped to one browser.
//! It carries the two values that correlate the three HTTP round-trips of the
//! flow: the CSRF nonce issued at the start, and the identity provider's
//! authorization code once the callback has proved the nonce. Each value is
//! consumed exactly once; a flow can only be restarted from the beginning.

use vstd::prelude::*;

use crate::errors::LinkError;
use crate::params::DiscordRedirectQueryParams;

verus! {

/// The logical position of one browser session inside the flow, as determined
/// by which correlation values the session still holds.
pub enum FlowState {
    /// No flow in progress (fresh session, or a completed/abandoned one).
    Idle,
    /// A nonce was issued; the identity-provider callback is expected next.
    AwaitingIdentityCallback,
    /// The authorization code is parked; the device-provider callback is
    /// expected next.
    AwaitingDeviceCallback,
}

/// Correlation state held between the flow's HTTP round-trips.
pub struct LinkSession {
    /// CSRF nonce for the identity-provider redirect; set by `start`, proved
    /// and consumed by `handle_identity_callback`.
    pub csrf_nonce: Option<String>,
    /// The identity provider's authorization code, parked until the device
    /// flow has succeeded; set by `handle_identity_callback`, consumed by the
    /// completion step.
    pub pending_auth_code: Option<String>,
}

impl LinkSession {
    /// Which step of the flow this session is waiting for. A parked
    /// authorization code always wins: once it is set the nonce has been
    /// consumed.
    pub open spec fn spec_flow_state(&self) -> FlowState {
        if self.pending_auth_code is Some {
            FlowState::AwaitingDeviceCallback
        } else if self.csrf_nonce is Some {
            FlowState::AwaitingIdentityCallback
        } else {
            FlowState::Idle
        }
    }

    /// A fresh session holding neither correlation value.
    pub fn new() -> (s: LinkSession)
        ensures
            s.csrf_nonce is None,
            s.pending_auth_code is None,
            s.spec_flow_state() is Idle,
    {
        LinkSession { csrf_nonce: None, pending_auth_code: None }
    }

    /// Drop both correlation values so the finished (or failed) flow cannot
    /// be replayed.
    pub fn invalidate(&mut self)
        ensures
            final(self).csrf_nonce is None,
            final(self).pending_auth_code is None,
            final(self).spec_flow_state() is Idle,
    {
        self.csrf_nonce = None;
        self.pending_auth_code = None;
    }
}

/// First step of the flow: park a freshly generated CSRF nonce in the session
/// so the identity-provider callback can be matched against it. The caller
/// embeds the same nonce in the authorization URL it redirects the user to.
/// Any half-finished earlier flow in this session is abandoned.
pub fn start(session: &mut LinkSession, nonce: String)
    ensures
        final(session).csrf_nonce == Some(nonce),
        final(session).pending_auth_code is None,
        final(session).spec_flow_state() is AwaitingIdentityCallback,
{
    session.csrf_nonce = Some(nonce);
    session.pending_auth_code = None;
}

/// Whether the `state` query parameter of the identity-provider callback
/// matches the CSRF nonce stored in the session.
pub fn verify_state(session_state: &String, query_string_state: &String) -> (r: Result<
    (),
    LinkError,
>)
    ensures
        r is Ok <==> session_state@ == query_string_state@,
        r is Err ==> r == Err::<(), LinkError>(LinkError::InvalidState),
{
    if *session_state == *query_string_state {
        Ok(())
    } else {
        Err(LinkError::InvalidState)
    }
}

/// Second step of the flow: the identity provider has redirected back with an
/// authorization code and the echoed `state`. The code is parked in the
/// session (the token exchange is deferred until the device flow succeeds)
/// if and only if `state` matches the stored nonce; the nonce is consumed.
/// On any mismatch — including a session with no nonce at all — nothing is
/// stored and the flow fails with `InvalidState`.
pub fn handle_identity_callback(
    session: &mut LinkSession,
    params: DiscordRedirectQueryParams,
) -> (r: Result<(), LinkError>)
    ensures
        r is Ok <==> (old(session).csrf_nonce matches Some(nonce) && nonce@ == params.state@),
        r is Ok ==> final(session).pending_auth_code == Some(params.code) && final(session).csrf_nonce is None && final(session).spec_flow_state() is AwaitingDeviceCallback,
        r is Err ==> *final(session) == *old(session) && r == Err::<(), LinkError>(
            LinkError::InvalidState,
        ),
{
    let DiscordRedirectQueryParams { code, state } = params;
    match &session.csrf_nonce {
        Some(nonce) => {
            match verify_state(nonce, &state) {
                Ok(()) => {
                    session.csrf_nonce = None;
                    session.pending_auth_code = Some(code);
                    Ok(())
                },
                Err(e) => Err(e),
            }
        },
        None => Err(LinkError::InvalidState),
    }
}

/// Take the parked authorization code out of the session, consuming it; the
/// completion step calls this once the device flow has succeeded. Fails with
/// `MissingHandoffState` when no code is parked, i.e. when completion was
/// called out of order.
pub fn take_pending_code(session: &mut LinkSession) -> (r: Result<String, LinkError>)
    ensures
        r matches Ok(code) ==> old(session).pending_auth_code == Some(code)
            && final(session).pending_auth_code is None
            && final(session).csrf_nonce == old(session).csrf_nonce,
        r is Err ==> old(session).pending_auth_code is None && *final(session) == *old(session)
            && r == Err::<String, LinkError>(LinkError::MissingHandoffState),
        r is Ok <==> old(session).pending_auth_code is Some,
{
    match session.pending_auth_code.take() {
        Some(c) => Ok(c),
        None => Err(LinkError::MissingHandoffState),
    }
}

} // verus!
