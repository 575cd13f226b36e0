//! Values exchanged with the two providers, and the four persisted entities.

use vstd::prelude::*;
use vstd::string::StringExecFns;

use crate::errors::LinkError;

verus! {

/// Fallback token lifetime in seconds, used when the identity provider omits
/// the granted lifetime.
pub const DEFAULT_TOKEN_LIFETIME_SECONDS: u64 = 1800;

/// One entry of the device list the device provider returns for a token.
#[derive(Clone, Debug)]
pub struct DeviceEntry {
    pub client_identifier: String,
}

/// The identity provider's authenticated user profile.
#[derive(Clone, Debug)]
pub struct IdentityUser {
    pub id: String,
    pub username: String,
}

/// The device provider's authenticated user profile.
#[derive(Clone, Debug)]
pub struct DeviceUser {
    pub id: i64,
    pub username: String,
}

/// What the identity provider hands back for an exchanged authorization code.
#[derive(Clone, Debug)]
pub struct IdentityGrant {
    pub access_token: String,
    pub refresh_token: Option<String>,
    pub scopes: Option<Vec<String>>,
    /// Granted lifetime in seconds, if the provider reported one.
    pub expires_in_seconds: Option<u64>,
}

/// Persisted identity-provider account (one row per provider-assigned id).
#[derive(Clone, Debug, PartialEq)]
pub struct IdentityAccountRecord {
    pub id: String,
    pub username: String,
}

/// Persisted identity-provider token, replaced wholesale on each relink.
#[derive(Clone, Debug, PartialEq)]
pub struct IdentityTokenRecord {
    pub access_token: String,
    pub refresh_token: String,
    /// Granted scopes, each followed by a `,` separator.
    pub scopes: String,
    /// Absolute expiry instant, seconds since the Unix epoch.
    pub expires_at: i64,
    pub identity_user_id: String,
}

/// Persisted device-provider account, owned by one identity account.
#[derive(Clone, Debug, PartialEq)]
pub struct DeviceAccountRecord {
    pub id: i64,
    pub username: String,
    pub identity_user_id: String,
}

/// Persisted device-provider access token (the PIN grant issues no refresh
/// token).
#[derive(Clone, Debug, PartialEq)]
pub struct DeviceTokenRecord {
    pub access_token: String,
    pub device_user_id: i64,
}

/// The four rows one successful completion persists together.
#[derive(Clone, Debug, PartialEq)]
pub struct LinkRecords {
    pub identity: IdentityAccountRecord,
    pub identity_token: IdentityTokenRecord,
    pub device: DeviceAccountRecord,
    pub device_token: DeviceTokenRecord,
}

impl LinkRecords {
    /// The rows reference each other correctly: the token and the device
    /// account point at the identity account, and the device token at the
    /// device account.
    pub open spec fn wf(&self) -> bool {
        &&& self.identity_token.identity_user_id@ == self.identity.id@
        &&& self.device.identity_user_id@ == self.identity.id@
        &&& self.device_token.device_user_id == self.device.id
    }
}

/// Whether the device list contains the configured target device.
pub open spec fn spec_device_listed(devices: Seq<DeviceEntry>, target: Seq<char>) -> bool {
    exists|i: int| 0 <= i < devices.len() && devices[i].client_identifier@ == target
}

/// Check that the authenticated device-provider user has access to the
/// configured target device: some entry of the fetched device list must carry
/// exactly the target's client identifier. Anything else fails with
/// `UnauthorizedDevice` — owning just any device-provider account is not
/// enough.
pub fn authorize_device(devices: &Vec<DeviceEntry>, target: &String) -> (r: Result<(), LinkError>)
    ensures
        r is Ok <==> spec_device_listed(devices@, target@),
        r is Err ==> r == Err::<(), LinkError>(LinkError::UnauthorizedDevice),
{
    let n = devices.len();
    let mut i: usize = 0;
    while i < n
        invariant
            i <= n,
            n == devices@.len(),
            forall|j: int| 0 <= j < i ==> devices@[j].client_identifier@ != target@,
        decreases n - i,
    {
        if devices[i].client_identifier == *target {
            return Ok(());
        }
        i += 1;
    }
    Err(LinkError::UnauthorizedDevice)
}

/// Absolute expiry instant of a fresh token: now plus the granted lifetime
/// (or the fixed fallback lifetime when the provider omitted it), saturated
/// at the largest representable instant.
pub open spec fn spec_token_expiry(now: int, expires_in_seconds: Option<u64>) -> int {
    let lifetime = match expires_in_seconds {
        Some(e) => e as int,
        None => DEFAULT_TOKEN_LIFETIME_SECONDS as int,
    };
    if now + lifetime <= i64::MAX as int {
        now + lifetime
    } else {
        i64::MAX as int
    }
}

/// Compute when a token granted at `now_seconds` expires.
pub fn token_expiry(now_seconds: i64, expires_in_seconds: Option<u64>) -> (expiry: i64)
    ensures
        expiry as int == spec_token_expiry(now_seconds as int, expires_in_seconds),
{
    let lifetime: u64 = match expires_in_seconds {
        Some(e) => e,
        None => DEFAULT_TOKEN_LIFETIME_SECONDS,
    };
    let sum: i128 = now_seconds as i128 + lifetime as i128;
    if sum > i64::MAX as i128 {
        i64::MAX
    } else {
        sum as i64
    }
}

/// The granted scopes flattened to one string, each scope followed by a `,`.
pub open spec fn spec_joined_scopes(scopes: Seq<Seq<char>>) -> Seq<char>
    decreases scopes.len(),
{
    if scopes.len() == 0 {
        Seq::<char>::empty()
    } else {
        spec_joined_scopes(scopes.drop_last()) + scopes.last() + ","@
    }
}

/// Flatten the granted scopes into the stored form: every scope followed by a
/// `,`; no scopes at all (or none reported) gives the empty string.
pub fn join_scopes(scopes: &Option<Vec<String>>) -> (joined: String)
    ensures
        scopes matches Some(list) ==> joined@ == spec_joined_scopes(list.deep_view()),
        scopes is None ==> joined@ == Seq::<char>::empty(),
{
    match scopes {
        None => String::new(),
        Some(list) => {
            let ghost views = list.deep_view();
            let mut joined = String::new();
            let n = list.len();
            let mut i: usize = 0;
            while i < n
                invariant
                    i <= n,
                    n == list@.len(),
                    views == list.deep_view(),
                    joined@ == spec_joined_scopes(views.take(i as int)),
                decreases n - i,
            {
                joined.append(list[i].as_str());
                joined.append(",");
                proof {
                    assert(views.take(i + 1).drop_last() =~= views.take(i as int));
                    assert(views.take(i + 1).last() == views[i as int]);
                }
                i += 1;
            }
            proof {
                assert(views.take(n as int) =~= views);
            }
            joined
        },
    }
}

/// Assemble the four rows to persist from the two fresh profiles and tokens.
/// The identity grant must carry a refresh token; the orchestrator treats a
/// grant without one as a malformed upstream response before ever building
/// records.
pub fn build_link_records(
    identity_user: IdentityUser,
    device_user: DeviceUser,
    grant: IdentityGrant,
    device_access_token: String,
    now_seconds: i64,
) -> (records: LinkRecords)
    requires
        grant.refresh_token is Some,
    ensures
        records.wf(),
        records.identity.id@ == identity_user.id@,
        records.identity.username@ == identity_user.username@,
        records.identity_token.access_token@ == grant.access_token@,
        records.identity_token.refresh_token@ == grant.refresh_token->0@,
        grant.scopes matches Some(list) ==> records.identity_token.scopes@ == spec_joined_scopes(
            list.deep_view(),
        ),
        grant.scopes is None ==> records.identity_token.scopes@ == Seq::<char>::empty(),
        records.identity_token.expires_at as int == spec_token_expiry(
            now_seconds as int,
            grant.expires_in_seconds,
        ),
        records.device.id == device_user.id,
        records.device.username@ == device_user.username@,
        records.device_token.access_token@ == device_access_token@,
{
    let scopes = join_scopes(&grant.scopes);
    let expires_at = token_expiry(now_seconds, grant.expires_in_seconds);
    let refresh_token = match grant.refresh_token {
        Some(t) => t,
        None => String::new(),  // unreachable under the precondition
    };
    let identity = IdentityAccountRecord {
        id: identity_user.id.clone(),
        username: identity_user.username,
    };
    let identity_token = IdentityTokenRecord {
        access_token: grant.access_token,
        refresh_token,
        scopes,
        expires_at,
        identity_user_id: identity_user.id.clone(),
    };
    let device = DeviceAccountRecord {
        id: device_user.id,
        username: device_user.username,
        identity_user_id: identity_user.id,
    };
    let device_token = DeviceTokenRecord {
        access_token: device_access_token,
        device_user_id: device.id,
    };
    LinkRecords { identity, identity_token, device, device_token }
}

} // verus!
