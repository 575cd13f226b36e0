//! Query parameters the two provider redirects carry back to the flow.

use vstd::prelude::*;

verus! {

/// Query parameters of the identity provider's callback redirect: the
/// authorization code and the echoed CSRF `state`.
#[derive(Clone, Debug)]
pub struct DiscordRedirectQueryParams {
    pub code: String,
    pub state: String,
}

/// Query parameters of the device provider's callback redirect: the id and
/// code of the PIN the user approved.
#[derive(Clone, Debug)]
pub struct PlexRedirectQueryParams {
    pub id: u64,
    pub code: String,
}

} // verus!
