//! The completion step of the flow, as an explicit state machine.
//!
//! The device provider's callback triggers a fixed sequence of upstream
//! calls: claim the PIN, list the devices, exchange the parked authorization
//! code, fetch both profiles, persist, fetch watch statistics, push the
//! derived metadata. The machine below owns every decision in that sequence;
//! the surrounding process owns the calls. Each `step` consumes one upstream
//! outcome and answers with the next call to make (or the final verdict), so
//! the order of the sequence — in particular that the code exchange never
//! happens for an unauthorized device — is part of the machine's contract,
//! not of the caller's goodwill.

use vstd::prelude::*;

use crate::clock::now_unix_seconds;
use crate::errors::LinkError;
use crate::metadata::{derive_metadata, spec_derived_metadata, Metadata, MetadataUpdate, WatchStat};
use crate::params::PlexRedirectQueryParams;
use crate::records::{
    build_link_records, spec_device_listed, spec_joined_scopes, spec_token_expiry,
    authorize_device, DeviceEntry, DeviceUser, IdentityGrant, IdentityUser, LinkRecords,
};
use crate::session::{take_pending_code, LinkSession};
use crate::store::{spec_linked, LinkStore};

verus! {

/// Immutable process configuration the flow needs: which device proves
/// ownership, and under what name metadata is pushed.
#[derive(Clone, Debug)]
pub struct Config {
    /// Client identifier of the one target device the user must have access
    /// to.
    pub target_device_identifier: String,
    /// Display name pushed alongside the metadata.
    pub application_name: String,
}

/// The next upstream call the surrounding process must make, or the final
/// verdict of the flow.
#[derive(Debug)]
pub enum Action {
    /// Claim the approved PIN for a device access token.
    ClaimPin { pin_id: u64, pin_code: String },
    /// Fetch the device list visible to this device token.
    ListDevices { device_token: String },
    /// Exchange the parked authorization code for an identity-provider grant.
    ExchangeCode { code: String },
    /// Fetch both user profiles; the two calls are independent and may run
    /// concurrently, joined before the next event.
    FetchProfiles { identity_access_token: String, device_token: String },
    /// Query the watch statistics of the linked device-provider user.
    FetchStats { device_user_id: i64 },
    /// Push the derived metadata to the identity provider.
    PushMetadata { identity_access_token: String, update: MetadataUpdate },
    /// The flow finished: answer the success page.
    Succeed,
    /// The flow failed: answer the error page for this failure.
    Fail { error: LinkError },
}

/// The outcome of the last requested upstream call.
#[derive(Debug)]
pub enum Event {
    /// The PIN claim returned a device access token.
    PinClaimed { device_token: String },
    /// The device list arrived.
    DevicesListed { devices: Vec<DeviceEntry> },
    /// The code exchange returned a grant.
    CodeExchanged { grant: IdentityGrant },
    /// Both profile fetches returned.
    ProfilesFetched { identity_user: IdentityUser, device_user: DeviceUser },
    /// The statistics query returned.
    StatsFetched { stats: Vec<WatchStat> },
    /// The metadata push went through.
    MetadataPushed,
    /// The requested call failed: network error, non-success status, or a
    /// response that could not be read.
    UpstreamFailed,
}

/// Where the completion stands between two upstream calls.
#[derive(Debug)]
pub enum FlowPhase {
    /// Waiting for the PIN claim.
    ClaimingPin,
    /// Waiting for the device list of this token.
    ListingDevices { device_token: String },
    /// Device ownership proved, code taken; waiting for the grant.
    ExchangingCode { device_token: String },
    /// Waiting for the two profiles, to be persisted with this grant.
    FetchingProfiles { device_token: String, grant: IdentityGrant },
    /// Link persisted; waiting for the watch statistics.
    FetchingStats { identity_access_token: String, device_user_id: i64 },
    /// Waiting for the metadata push to go through.
    PushingMetadata,
    /// Terminal: the link succeeded and the session was invalidated.
    Completed,
    /// Terminal: the flow failed; nothing can be retried in place.
    Failed { error: LinkError },
}

/// One run of the completion step for one browser session.
pub struct LinkFlow {
    pub config: Config,
    pub phase: FlowPhase,
}

/// Matching the first watch-statistics row (or none) to the metadata it
/// derives is `spec_derived_metadata`; an update carries it under the
/// configured application name.
pub open spec fn spec_update_built(update: MetadataUpdate, config: Config, m: Metadata) -> bool {
    &&& update.platform_name@ == config.application_name@
    &&& update.metadata == m
}

/// The persisted rows match the fresh profiles, grant and device token, with
/// the token expiry computed at clock reading `now`.
pub open spec fn spec_records_built(
    recs: LinkRecords,
    identity_user: IdentityUser,
    device_user: DeviceUser,
    grant: IdentityGrant,
    device_access_token: Seq<char>,
    now: int,
) -> bool {
    &&& recs.wf()
    &&& recs.identity.id@ == identity_user.id@
    &&& recs.identity.username@ == identity_user.username@
    &&& recs.identity_token.access_token@ == grant.access_token@
    &&& (grant.refresh_token matches Some(t) ==> recs.identity_token.refresh_token@ == t@)
    &&& (grant.scopes matches Some(list) ==> recs.identity_token.scopes@ == spec_joined_scopes(
        list.deep_view(),
    ))
    &&& (grant.scopes is None ==> recs.identity_token.scopes@ == Seq::<char>::empty())
    &&& recs.identity_token.expires_at as int == spec_token_expiry(now, grant.expires_in_seconds)
    &&& recs.device.id == device_user.id
    &&& recs.device.username@ == device_user.username@
    &&& recs.device_token.access_token@ == device_access_token
}

impl LinkFlow {
    /// A grant only reaches the persisting phase with its refresh token
    /// present.
    pub open spec fn wf(&self) -> bool {
        self.phase matches FlowPhase::FetchingProfiles { grant, .. } ==> grant.refresh_token
            is Some
    }

    /// Which events the machine can consume in its current phase: the
    /// outcome of the one call it last requested. Terminal phases consume
    /// nothing.
    pub open spec fn spec_accepts(&self, event: &Event) -> bool {
        match self.phase {
            FlowPhase::ClaimingPin => event is PinClaimed || event is UpstreamFailed,
            FlowPhase::ListingDevices { .. } => event is DevicesListed || event is UpstreamFailed,
            FlowPhase::ExchangingCode { .. } => event is CodeExchanged || event is UpstreamFailed,
            FlowPhase::FetchingProfiles { .. } => event is ProfilesFetched || event
                is UpstreamFailed,
            FlowPhase::FetchingStats { .. } => event is StatsFetched || event is UpstreamFailed,
            FlowPhase::PushingMetadata => event is MetadataPushed || event is UpstreamFailed,
            FlowPhase::Completed => false,
            FlowPhase::Failed { .. } => false,
        }
    }

    /// Runtime check of `spec_accepts`, for a caller that must guard a call.
    pub fn accepts(&self, event: &Event) -> (r: bool)
        ensures
            r == self.spec_accepts(event),
    {
        match &self.phase {
            FlowPhase::ClaimingPin => matches!(event, Event::PinClaimed { .. })
                || matches!(event, Event::UpstreamFailed),
            FlowPhase::ListingDevices { .. } => matches!(event, Event::DevicesListed { .. })
                || matches!(event, Event::UpstreamFailed),
            FlowPhase::ExchangingCode { .. } => matches!(event, Event::CodeExchanged { .. })
                || matches!(event, Event::UpstreamFailed),
            FlowPhase::FetchingProfiles { .. } => matches!(event, Event::ProfilesFetched { .. })
                || matches!(event, Event::UpstreamFailed),
            FlowPhase::FetchingStats { .. } => matches!(event, Event::StatsFetched { .. })
                || matches!(event, Event::UpstreamFailed),
            FlowPhase::PushingMetadata => matches!(event, Event::MetadataPushed)
                || matches!(event, Event::UpstreamFailed),
            FlowPhase::Completed => false,
            FlowPhase::Failed { .. } => false,
        }
    }

    /// The device provider has redirected back with an approved PIN: begin
    /// the completion by claiming it.
    pub fn begin(config: Config, params: PlexRedirectQueryParams) -> (r: (LinkFlow, Action))
        ensures
            r.0.phase is ClaimingPin,
            r.0.wf(),
            r.0.config == config,
            r.1 matches Action::ClaimPin { pin_id, pin_code } && pin_id == params.id && pin_code@
                == params.code@,
    {
        let flow = LinkFlow { config, phase: FlowPhase::ClaimingPin };
        let action = Action::ClaimPin { pin_id: params.id, pin_code: params.code };
        (flow, action)
    }

    /// Consume the outcome of the last requested call and answer the next
    /// action. Every decision of the completion lives here; the contract
    /// pins each one:
    /// - any upstream failure fails the flow with `UpstreamAuthError`, except
    ///   a failed statistics query, which is recovered as zero metadata, and
    ///   a failed metadata push, which fails with `MetadataPushError`;
    /// - a device list without the target device fails with
    ///   `UnauthorizedDevice` before any code exchange is requested;
    /// - with the target device proved, a session holding no parked code
    ///   fails with `MissingHandoffState` and nothing is persisted;
    /// - the four rows are persisted atomically, exactly once, when both
    ///   profiles are in;
    /// - the flow completes only after the metadata push, upon which the
    ///   session's correlation state is invalidated.
    pub fn step(&mut self, event: Event, session: &mut LinkSession, store: &mut LinkStore) -> (action:
        Action)
        requires
            old(self).wf(),
            old(self).spec_accepts(&event),
            old(store).wf(),
        ensures
            final(self).wf(),
            final(store).wf(),
            final(self).config == old(self).config,
            // the store changes only when the profiles arrive and the link is persisted
            !(old(self).phase is FetchingProfiles && event is ProfilesFetched) ==> *final(store)
                == *old(store),
            // the session changes only when the parked code is consumed or the flow completes
            !(old(self).phase is ListingDevices && event is DevicesListed) && !(old(self).phase
                is PushingMetadata && event is MetadataPushed) ==> *final(session) == *old(session),
            // verdict actions and terminal phases coincide, with the same error
            final(self).phase matches FlowPhase::Failed { error } ==> action == (Action::Fail {
                error,
            }),
            action matches Action::Fail { error } ==> final(self).phase == (FlowPhase::Failed {
                error,
            }),
            action is Succeed <==> final(self).phase is Completed,
            // a failed upstream call fails the flow, except statistics and push
            event is UpstreamFailed && !(old(self).phase is FetchingStats) && !(old(self).phase
                is PushingMetadata) ==> final(self).phase == (FlowPhase::Failed {
                error: LinkError::UpstreamAuthError,
            }),
            event is UpstreamFailed && old(self).phase is PushingMetadata ==> final(self).phase
                == (FlowPhase::Failed { error: LinkError::MetadataPushError }),
            // a failed statistics query is recovered as zero metadata
            old(self).phase matches FlowPhase::FetchingStats { identity_access_token, .. } ==> (
            event is UpstreamFailed ==> final(self).phase is PushingMetadata && (action matches
                Action::PushMetadata { identity_access_token: t, update } && t@
                == identity_access_token@ && spec_update_built(
                update,
                old(self).config,
                spec_derived_metadata(Seq::<WatchStat>::empty()),
            ))),
            // claimed PIN: list the devices of the fresh token
            event matches Event::PinClaimed { device_token } ==> final(self).phase
                == (FlowPhase::ListingDevices { device_token }) && action == (Action::ListDevices {
                device_token,
            }),
            // the device list decides authorization, then the parked code is consumed
            old(self).phase matches FlowPhase::ListingDevices { device_token } ==> (event matches
                Event::DevicesListed { devices } ==> {
                &&& !spec_device_listed(
                    devices@,
                    old(self).config.target_device_identifier@,
                ) ==> final(self).phase == (FlowPhase::Failed {
                    error: LinkError::UnauthorizedDevice,
                }) && *final(session) == *old(session)
                &&& spec_device_listed(devices@, old(self).config.target_device_identifier@)
                    && old(session).pending_auth_code is None ==> final(self).phase
                    == (FlowPhase::Failed { error: LinkError::MissingHandoffState }) && *final(session) == *old(session)
                &&& spec_device_listed(devices@, old(self).config.target_device_identifier@)
                    ==> (old(session).pending_auth_code matches Some(code) ==> (final(self).phase
                    matches FlowPhase::ExchangingCode { device_token: dt } && dt@ == device_token@)
                    && (action matches Action::ExchangeCode { code: c } && c@ == code@)
                    && final(session).pending_auth_code is None && final(session).csrf_nonce
                    == old(session).csrf_nonce)
            }),
            // a grant with its refresh token moves on to the profiles; one
            // without is a malformed upstream response
            old(self).phase matches FlowPhase::ExchangingCode { device_token } ==> (event matches
                Event::CodeExchanged { grant } ==> {
                &&& grant.refresh_token is Some ==> (final(self).phase
                    matches FlowPhase::FetchingProfiles { device_token: dt, grant: g } && dt@
                    == device_token@ && g == grant) && (action matches Action::FetchProfiles {
                    identity_access_token: t,
                    device_token: adt,
                } && t@ == grant.access_token@ && adt@ == device_token@)
                &&& grant.refresh_token is None ==> final(self).phase == (FlowPhase::Failed {
                    error: LinkError::UpstreamAuthError,
                })
            }),
            // both profiles in: persist the four rows atomically and move on
            // to the statistics query
            old(self).phase matches FlowPhase::FetchingProfiles { device_token, grant } ==> (event
                matches Event::ProfilesFetched { identity_user, device_user } ==> (exists|
                recs: LinkRecords,
                now: int,
            |
                {
                    &&& #[trigger] spec_records_built(
                        recs,
                        identity_user,
                        device_user,
                        grant,
                        device_token@,
                        now,
                    )
                    &&& final(store)@ == spec_linked(old(store)@, recs)
                    &&& (final(self).phase matches FlowPhase::FetchingStats {
                        identity_access_token: t,
                        device_user_id: d,
                    } && t@ == grant.access_token@ && d == device_user.id)
                    &&& action == (Action::FetchStats { device_user_id: device_user.id })
                })),
            // statistics in: derive the metadata and push it
            old(self).phase matches FlowPhase::FetchingStats { identity_access_token, .. } ==> (
            event matches Event::StatsFetched { stats } ==> final(self).phase is PushingMetadata
                && (action matches Action::PushMetadata { identity_access_token: t, update } && t@
                == identity_access_token@ && spec_update_built(
                update,
                old(self).config,
                spec_derived_metadata(stats@),
            ))),
            // the push went through: the flow is complete and cannot be
            // replayed
            old(self).phase is PushingMetadata && event is MetadataPushed ==> final(self).phase
                is Completed && action is Succeed && final(session).csrf_nonce is None && final(session).pending_auth_code is None,
    {
        let mut phase = FlowPhase::ClaimingPin;
        core::mem::swap(&mut phase, &mut self.phase);
        let action: Action;
        match (phase, event) {
            (FlowPhase::ClaimingPin, Event::PinClaimed { device_token }) => {
                self.phase = FlowPhase::ListingDevices { device_token: device_token.clone() };
                action = Action::ListDevices { device_token };
            },
            (FlowPhase::ListingDevices { device_token }, Event::DevicesListed { devices }) => {
                match authorize_device(&devices, &self.config.target_device_identifier) {
                    Err(error) => {
                        self.phase = FlowPhase::Failed { error };
                        action = Action::Fail { error };
                    },
                    Ok(()) => {
                        match take_pending_code(session) {
                            Err(error) => {
                                self.phase = FlowPhase::Failed { error };
                                action = Action::Fail { error };
                            },
                            Ok(code) => {
                                self.phase = FlowPhase::ExchangingCode { device_token };
                                action = Action::ExchangeCode { code };
                            },
                        }
                    },
                }
            },
            (FlowPhase::ExchangingCode { device_token }, Event::CodeExchanged { grant }) => {
                if grant.refresh_token.is_some() {
                    action = Action::FetchProfiles {
                        identity_access_token: grant.access_token.clone(),
                        device_token: device_token.clone(),
                    };
                    self.phase = FlowPhase::FetchingProfiles { device_token, grant };
                } else {
                    let error = LinkError::UpstreamAuthError;
                    self.phase = FlowPhase::Failed { error };
                    action = Action::Fail { error };
                }
            },
            (
                FlowPhase::FetchingProfiles { device_token, grant },
                Event::ProfilesFetched { identity_user, device_user },
            ) => {
                let ghost g_identity_user = identity_user;
                let ghost g_device_user = device_user;
                let ghost g_grant = grant;
                let ghost g_device_token = device_token;
                let device_user_id = device_user.id;
                let identity_access_token = grant.access_token.clone();
                let now_seconds = now_unix_seconds();
                let records = build_link_records(
                    identity_user,
                    device_user,
                    grant,
                    device_token,
                    now_seconds,
                );
                let ghost g_records = records;
                match store.link_accounts(records) {
                    Ok(()) => {
                        proof {
                            assert(spec_records_built(
                                g_records,
                                g_identity_user,
                                g_device_user,
                                g_grant,
                                g_device_token@,
                                now_seconds as int,
                            ));
                        }
                        self.phase = FlowPhase::FetchingStats {
                            identity_access_token,
                            device_user_id,
                        };
                        action = Action::FetchStats { device_user_id };
                    },
                    Err(_) => {
                        let error = LinkError::PersistenceError;
                        self.phase = FlowPhase::Failed { error };
                        action = Action::Fail { error };
                    },
                }
            },
            (
                FlowPhase::FetchingStats { identity_access_token, device_user_id: _ },
                Event::StatsFetched { stats },
            ) => {
                let metadata = derive_metadata(&stats);
                self.phase = FlowPhase::PushingMetadata;
                action = Action::PushMetadata {
                    identity_access_token,
                    update: MetadataUpdate {
                        platform_name: self.config.application_name.clone(),
                        metadata,
                    },
                };
            },
            (
                FlowPhase::FetchingStats { identity_access_token, device_user_id: _ },
                Event::UpstreamFailed,
            ) => {
                let metadata = Metadata::zero();
                self.phase = FlowPhase::PushingMetadata;
                action = Action::PushMetadata {
                    identity_access_token,
                    update: MetadataUpdate {
                        platform_name: self.config.application_name.clone(),
                        metadata,
                    },
                };
            },
            (FlowPhase::PushingMetadata, Event::MetadataPushed) => {
                session.invalidate();
                self.phase = FlowPhase::Completed;
                action = Action::Succeed;
            },
            (FlowPhase::PushingMetadata, Event::UpstreamFailed) => {
                let error = LinkError::MetadataPushError;
                self.phase = FlowPhase::Failed { error };
                action = Action::Fail { error };
            },
            (FlowPhase::ClaimingPin, Event::UpstreamFailed)
            | (FlowPhase::ListingDevices { .. }, Event::UpstreamFailed)
            | (FlowPhase::ExchangingCode { .. }, Event::UpstreamFailed)
            | (FlowPhase::FetchingProfiles { .. }, Event::UpstreamFailed) => {
                let error = LinkError::UpstreamAuthError;
                self.phase = FlowPhase::Failed { error };
                action = Action::Fail { error };
            },
            _ => {
                proof {
                    assert(false);
                }
                action = Action::Fail { error: LinkError::UpstreamAuthError };
            },
        }
        action
    }
}

} // verus!
