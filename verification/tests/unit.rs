use displex::errors::LinkError;
use displex::metadata::{derive_metadata, WatchStat};
use displex::records::{
    authorize_device, build_link_records, join_scopes, token_expiry, DeviceEntry, DeviceUser,
    IdentityGrant, IdentityUser,
};
use displex::session::{take_pending_code, verify_state, LinkSession, start, handle_identity_callback};
use displex::params::DiscordRedirectQueryParams;

#[test]
fn derive_metadata_truncates_hours() {
    let stats = vec![WatchStat { total_plays: 42, total_time_seconds: 7300 }];
    let m = derive_metadata(&stats);
    assert_eq!(m.total_watches, 42);
    assert_eq!(m.hours_watched, 2);
}

#[test]
fn derive_metadata_without_rows_is_zero() {
    let m = derive_metadata(&vec![]);
    assert_eq!(m.total_watches, 0);
    assert_eq!(m.hours_watched, 0);
}

#[test]
fn derive_metadata_uses_first_row() {
    let stats = vec![
        WatchStat { total_plays: 10, total_time_seconds: 3600 },
        WatchStat { total_plays: 99, total_time_seconds: 360000 },
    ];
    let m = derive_metadata(&stats);
    assert_eq!(m.total_watches, 10);
    assert_eq!(m.hours_watched, 1);
}

#[test]
fn token_expiry_adds_reported_lifetime() {
    assert_eq!(token_expiry(1000, Some(600)), 1600);
}

#[test]
fn token_expiry_falls_back_to_default_lifetime() {
    assert_eq!(token_expiry(1000, None), 2800);
}

#[test]
fn token_expiry_saturates() {
    assert_eq!(token_expiry(i64::MAX - 10, Some(600)), i64::MAX);
}

#[test]
fn join_scopes_appends_separator_to_each() {
    let scopes = Some(vec![String::from("identify"), String::from("role_connections.write")]);
    assert_eq!(join_scopes(&scopes), "identify,role_connections.write,");
}

#[test]
fn join_scopes_of_nothing_is_empty() {
    assert_eq!(join_scopes(&None), "");
    assert_eq!(join_scopes(&Some(vec![])), "");
}

#[test]
fn authorize_device_matches_exact_identifier() {
    let devices = vec![
        DeviceEntry { client_identifier: String::from("abc") },
        DeviceEntry { client_identifier: String::from("def") },
    ];
    assert!(authorize_device(&devices, &String::from("abc")).is_ok());
    assert!(authorize_device(&devices, &String::from("def")).is_ok());
    let r = authorize_device(&devices, &String::from("xyz"));
    assert!(matches!(r, Err(LinkError::UnauthorizedDevice)));
    let r = authorize_device(&vec![], &String::from("abc"));
    assert!(matches!(r, Err(LinkError::UnauthorizedDevice)));
}

#[test]
fn verify_state_compares_content() {
    assert!(verify_state(&String::from("n1"), &String::from("n1")).is_ok());
    let r = verify_state(&String::from("n1"), &String::from("n2"));
    assert!(matches!(r, Err(LinkError::InvalidState)));
}

#[test]
fn identity_callback_with_wrong_state_stores_nothing() {
    let mut session = LinkSession::new();
    start(&mut session, String::from("nonce-1"));
    let r = handle_identity_callback(
        &mut session,
        DiscordRedirectQueryParams {
            code: String::from("auth-code"),
            state: String::from("forged"),
        },
    );
    assert!(matches!(r, Err(LinkError::InvalidState)));
    assert!(session.pending_auth_code.is_none());
    assert_eq!(session.csrf_nonce, Some(String::from("nonce-1")));
}

#[test]
fn identity_callback_without_nonce_is_invalid() {
    let mut session = LinkSession::new();
    let r = handle_identity_callback(
        &mut session,
        DiscordRedirectQueryParams {
            code: String::from("auth-code"),
            state: String::from("anything"),
        },
    );
    assert!(matches!(r, Err(LinkError::InvalidState)));
    assert!(session.pending_auth_code.is_none());
}

#[test]
fn pending_code_is_consumed_once() {
    let mut session = LinkSession::new();
    session.pending_auth_code = Some(String::from("auth-code"));
    let first = take_pending_code(&mut session);
    assert_eq!(first.ok(), Some(String::from("auth-code")));
    let second = take_pending_code(&mut session);
    assert!(matches!(second, Err(LinkError::MissingHandoffState)));
}

#[test]
fn http_status_classifies_errors() {
    assert_eq!(LinkError::InvalidState.http_status(), 400);
    assert_eq!(LinkError::UnauthorizedDevice.http_status(), 401);
    assert_eq!(LinkError::MissingHandoffState.http_status(), 500);
    assert_eq!(LinkError::UpstreamAuthError.http_status(), 500);
    assert_eq!(LinkError::PersistenceError.http_status(), 500);
    assert_eq!(LinkError::MetadataPushError.http_status(), 500);
}

#[test]
fn user_messages_stay_generic() {
    assert_eq!(LinkError::InvalidState.user_message(), "invalid state");
    assert_eq!(LinkError::UnauthorizedDevice.user_message(), "unauthorized user");
    assert_eq!(LinkError::PersistenceError.user_message(), "something bad happened");
}

#[test]
fn built_records_carry_profile_and_grant() {
    let identity_user =
        IdentityUser { id: String::from("discord-1"), username: String::from("alice") };
    let device_user = DeviceUser { id: 77, username: String::from("alice-plex") };
    let grant = IdentityGrant {
        access_token: String::from("d-access"),
        refresh_token: Some(String::from("d-refresh")),
        scopes: Some(vec![String::from("identify")]),
        expires_in_seconds: Some(600),
    };
    let records =
        build_link_records(identity_user, device_user, grant, String::from("plex-token"), 1000);
    assert_eq!(records.identity.id, "discord-1");
    assert_eq!(records.identity.username, "alice");
    assert_eq!(records.identity_token.access_token, "d-access");
    assert_eq!(records.identity_token.refresh_token, "d-refresh");
    assert_eq!(records.identity_token.scopes, "identify,");
    assert_eq!(records.identity_token.expires_at, 1600);
    assert_eq!(records.identity_token.identity_user_id, "discord-1");
    assert_eq!(records.device.id, 77);
    assert_eq!(records.device.identity_user_id, "discord-1");
    assert_eq!(records.device_token.access_token, "plex-token");
    assert_eq!(records.device_token.device_user_id, 77);
}
