use displex::errors::LinkError;
use displex::metadata::WatchStat;
use displex::orchestrator::{Action, Config, Event, FlowPhase, LinkFlow};
use displex::params::{DiscordRedirectQueryParams, PlexRedirectQueryParams};
use displex::records::{DeviceEntry, DeviceUser, IdentityGrant, IdentityUser};
use displex::session::{handle_identity_callback, start, LinkSession};
use displex::store::LinkStore;

fn test_config(target: &str) -> Config {
    Config {
        target_device_identifier: String::from(target),
        application_name: String::from("Displex"),
    }
}

fn grant_with_refresh() -> IdentityGrant {
    IdentityGrant {
        access_token: String::from("d-access"),
        refresh_token: Some(String::from("d-refresh")),
        scopes: Some(vec![String::from("identify")]),
        expires_in_seconds: Some(604800),
    }
}

fn profiles() -> (IdentityUser, DeviceUser) {
    (
        IdentityUser { id: String::from("discord-1"), username: String::from("alice") },
        DeviceUser { id: 77, username: String::from("alice-plex") },
    )
}

/// Drive a session through start and a matching identity callback, parking
/// the code.
fn session_with_pending_code() -> LinkSession {
    let mut session = LinkSession::new();
    start(&mut session, String::from("nonce-1"));
    let r = handle_identity_callback(
        &mut session,
        DiscordRedirectQueryParams {
            code: String::from("auth-code-1"),
            state: String::from("nonce-1"),
        },
    );
    assert!(r.is_ok());
    session
}

#[test]
fn happy_path_completes_and_invalidates_session() {
    let mut session = session_with_pending_code();
    let mut store = LinkStore::new();
    let (mut flow, action) = LinkFlow::begin(
        test_config("abc"),
        PlexRedirectQueryParams { id: 5, code: String::from("pin-code") },
    );
    assert!(matches!(action, Action::ClaimPin { pin_id: 5, .. }));

    let action = flow.step(
        Event::PinClaimed { device_token: String::from("plex-token") },
        &mut session,
        &mut store,
    );
    assert!(matches!(action, Action::ListDevices { .. }));

    let action = flow.step(
        Event::DevicesListed {
            devices: vec![DeviceEntry { client_identifier: String::from("abc") }],
        },
        &mut session,
        &mut store,
    );
    match action {
        Action::ExchangeCode { code } => assert_eq!(code, "auth-code-1"),
        _ => panic!("expected the code exchange"),
    }
    assert!(session.pending_auth_code.is_none());

    let action = flow.step(
        Event::CodeExchanged { grant: grant_with_refresh() },
        &mut session,
        &mut store,
    );
    assert!(matches!(action, Action::FetchProfiles { .. }));

    let (identity_user, device_user) = profiles();
    let action = flow.step(
        Event::ProfilesFetched { identity_user, device_user },
        &mut session,
        &mut store,
    );
    assert!(matches!(action, Action::FetchStats { device_user_id: 77 }));
    assert_eq!(store.identity_account_count(), 1);
    assert_eq!(store.identity_token_count(), 1);
    assert_eq!(store.device_account_count(), 1);
    assert_eq!(store.device_token_count(), 1);

    let action = flow.step(
        Event::StatsFetched {
            stats: vec![WatchStat { total_plays: 42, total_time_seconds: 7300 }],
        },
        &mut session,
        &mut store,
    );
    match action {
        Action::PushMetadata { update, .. } => {
            assert_eq!(update.platform_name, "Displex");
            assert_eq!(update.metadata.total_watches, 42);
            assert_eq!(update.metadata.hours_watched, 2);
        },
        _ => panic!("expected the metadata push"),
    }

    let action = flow.step(Event::MetadataPushed, &mut session, &mut store);
    assert!(matches!(action, Action::Succeed));
    assert!(matches!(flow.phase, FlowPhase::Completed));
    assert!(session.csrf_nonce.is_none());
    assert!(session.pending_auth_code.is_none());
}

#[test]
fn unauthorized_device_fails_before_any_exchange() {
    let mut session = session_with_pending_code();
    let mut store = LinkStore::new();
    let (mut flow, _) = LinkFlow::begin(
        test_config("xyz"),
        PlexRedirectQueryParams { id: 5, code: String::from("pin-code") },
    );
    flow.step(
        Event::PinClaimed { device_token: String::from("plex-token") },
        &mut session,
        &mut store,
    );
    let action = flow.step(
        Event::DevicesListed {
            devices: vec![DeviceEntry { client_identifier: String::from("abc") }],
        },
        &mut session,
        &mut store,
    );
    assert!(matches!(action, Action::Fail { error: LinkError::UnauthorizedDevice }));
    assert!(matches!(flow.phase, FlowPhase::Failed { error: LinkError::UnauthorizedDevice }));
    // the exchange never happened: the code is still parked, nothing stored
    assert!(session.pending_auth_code.is_some());
    assert_eq!(store.identity_account_count(), 0);
    assert_eq!(LinkError::UnauthorizedDevice.http_status(), 401);
}

#[test]
fn completion_without_pending_code_fails_with_missing_handoff() {
    // the device callback arrives without the identity callback ever running
    let mut session = LinkSession::new();
    let mut store = LinkStore::new();
    let (mut flow, _) = LinkFlow::begin(
        test_config("abc"),
        PlexRedirectQueryParams { id: 9, code: String::from("pin-code") },
    );
    flow.step(
        Event::PinClaimed { device_token: String::from("plex-token") },
        &mut session,
        &mut store,
    );
    let action = flow.step(
        Event::DevicesListed {
            devices: vec![DeviceEntry { client_identifier: String::from("abc") }],
        },
        &mut session,
        &mut store,
    );
    assert!(matches!(action, Action::Fail { error: LinkError::MissingHandoffState }));
    // no persistence write happened
    assert_eq!(store.identity_account_count(), 0);
    assert_eq!(store.identity_token_count(), 0);
    assert_eq!(store.device_account_count(), 0);
    assert_eq!(store.device_token_count(), 0);
}

#[test]
fn stats_failure_still_completes_with_zero_metadata() {
    let mut session = session_with_pending_code();
    let mut store = LinkStore::new();
    let (mut flow, _) = LinkFlow::begin(
        test_config("abc"),
        PlexRedirectQueryParams { id: 5, code: String::from("pin-code") },
    );
    flow.step(
        Event::PinClaimed { device_token: String::from("plex-token") },
        &mut session,
        &mut store,
    );
    flow.step(
        Event::DevicesListed {
            devices: vec![DeviceEntry { client_identifier: String::from("abc") }],
        },
        &mut session,
        &mut store,
    );
    flow.step(Event::CodeExchanged { grant: grant_with_refresh() }, &mut session, &mut store);
    let (identity_user, device_user) = profiles();
    flow.step(Event::ProfilesFetched { identity_user, device_user }, &mut session, &mut store);

    // the statistics query fails: recovered as zeroed metadata, not an error
    let action = flow.step(Event::UpstreamFailed, &mut session, &mut store);
    match action {
        Action::PushMetadata { update, .. } => {
            assert_eq!(update.metadata.total_watches, 0);
            assert_eq!(update.metadata.hours_watched, 0);
        },
        _ => panic!("expected the metadata push"),
    }
    let action = flow.step(Event::MetadataPushed, &mut session, &mut store);
    assert!(matches!(action, Action::Succeed));
    // the link itself was persisted
    assert_eq!(store.identity_account_count(), 1);
}

#[test]
fn upstream_failures_fail_the_flow() {
    let mut session = session_with_pending_code();
    let mut store = LinkStore::new();
    let (mut flow, _) = LinkFlow::begin(
        test_config("abc"),
        PlexRedirectQueryParams { id: 5, code: String::from("pin-code") },
    );
    // the PIN claim fails
    let action = flow.step(Event::UpstreamFailed, &mut session, &mut store);
    assert!(matches!(action, Action::Fail { error: LinkError::UpstreamAuthError }));
    assert_eq!(LinkError::UpstreamAuthError.http_status(), 500);
    assert!(!flow.accepts(&Event::MetadataPushed));
}

#[test]
fn metadata_push_failure_is_fatal() {
    let mut session = session_with_pending_code();
    let mut store = LinkStore::new();
    let (mut flow, _) = LinkFlow::begin(
        test_config("abc"),
        PlexRedirectQueryParams { id: 5, code: String::from("pin-code") },
    );
    flow.step(
        Event::PinClaimed { device_token: String::from("plex-token") },
        &mut session,
        &mut store,
    );
    flow.step(
        Event::DevicesListed {
            devices: vec![DeviceEntry { client_identifier: String::from("abc") }],
        },
        &mut session,
        &mut store,
    );
    flow.step(Event::CodeExchanged { grant: grant_with_refresh() }, &mut session, &mut store);
    let (identity_user, device_user) = profiles();
    flow.step(Event::ProfilesFetched { identity_user, device_user }, &mut session, &mut store);
    flow.step(
        Event::StatsFetched { stats: vec![] },
        &mut session,
        &mut store,
    );
    let action = flow.step(Event::UpstreamFailed, &mut session, &mut store);
    assert!(matches!(action, Action::Fail { error: LinkError::MetadataPushError }));
    // the persisted link stays committed: push failure does not roll it back
    assert_eq!(store.identity_account_count(), 1);
}

#[test]
fn grant_without_refresh_token_is_malformed() {
    let mut session = session_with_pending_code();
    let mut store = LinkStore::new();
    let (mut flow, _) = LinkFlow::begin(
        test_config("abc"),
        PlexRedirectQueryParams { id: 5, code: String::from("pin-code") },
    );
    flow.step(
        Event::PinClaimed { device_token: String::from("plex-token") },
        &mut session,
        &mut store,
    );
    flow.step(
        Event::DevicesListed {
            devices: vec![DeviceEntry { client_identifier: String::from("abc") }],
        },
        &mut session,
        &mut store,
    );
    let grant = IdentityGrant {
        access_token: String::from("d-access"),
        refresh_token: None,
        scopes: None,
        expires_in_seconds: None,
    };
    let action = flow.step(Event::CodeExchanged { grant }, &mut session, &mut store);
    assert!(matches!(action, Action::Fail { error: LinkError::UpstreamAuthError }));
    assert_eq!(store.identity_account_count(), 0);
}
