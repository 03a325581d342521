use builder_id_auth::error::AuthError;
use builder_id_auth::lifecycle::DEFAULT_REFRESH_MARGIN_S;
use builder_id_auth::lifecycle::LogoutReport;
use builder_id_auth::lifecycle::RefreshAction;
use builder_id_auth::lifecycle::apply_refresh;
use builder_id_auth::lifecycle::complete_login;
use builder_id_auth::lifecycle::is_logged_in;
use builder_id_auth::lifecycle::logout;
use builder_id_auth::lifecycle::refresh_if_needed;
use builder_id_auth::poller::PollResponse;
use builder_id_auth::poller::PollState;
use builder_id_auth::poller::PollStep;
use builder_id_auth::poller::TokenPayload;
use builder_id_auth::poller::step;
use builder_id_auth::store::TokenStore;
use builder_id_auth::token::BuilderIdToken;

const NOW: u64 = 1_700_000_000;

fn payload() -> TokenPayload {
    TokenPayload {
        access_token: b"access".to_vec(),
        refresh_token: Some(b"refresh".to_vec()),
        expires_in_s: 3600,
    }
}

fn login_succeeded(store: &mut TokenStore) -> BuilderIdToken {
    complete_login(
        store,
        PollStep::Succeeded(payload()),
        NOW,
        b"us-east-1".to_vec(),
        b"https://example.awsapps.com/start".to_vec(),
        vec![b"scope:one".to_vec()],
    )
    .expect("a successful poll must complete the login")
}

#[test]
fn presence_follows_login_refresh_and_logout() {
    let mut store = TokenStore::new();
    assert!(!is_logged_in(&store));

    login_succeeded(&mut store);
    assert!(is_logged_in(&store));

    // Any number of refresh judgments in between never flips presence.
    for offset in [0, 1800, 3600, 7200] {
        let _ = refresh_if_needed(&store, NOW + offset, DEFAULT_REFRESH_MARGIN_S);
        assert!(is_logged_in(&store));
    }

    let report = logout(&mut store, true, true).expect("token delete went through");
    assert_eq!(report, LogoutReport { settings_warning: false });
    assert!(!is_logged_in(&store));
}

#[test]
fn completed_login_stores_the_issued_token() {
    let mut store = TokenStore::new();
    let token = login_succeeded(&mut store);
    assert_eq!(token.access_token, b"access".to_vec());
    assert_eq!(token.refresh_token, Some(b"refresh".to_vec()));
    assert_eq!(token.expires_at_epoch_s, NOW + 3600);
    assert_eq!(token.region, b"us-east-1".to_vec());
    assert_eq!(store.load().unwrap().unwrap(), token);
}

#[test]
fn expired_first_poll_fails_login_and_leaves_store_untouched() {
    let mut store = TokenStore::new();
    let poll_state = PollState { interval_s: 5, deadline_epoch_s: NOW + 600 };
    let outcome = step(poll_state, NOW + 5, PollResponse::ExpiredToken);
    assert_eq!(outcome, PollStep::Failed(AuthError::PollExpired));
    let err = complete_login(
        &mut store,
        outcome,
        NOW + 5,
        b"us-east-1".to_vec(),
        b"https://example.awsapps.com/start".to_vec(),
        Vec::new(),
    )
    .unwrap_err();
    assert_eq!(err, AuthError::PollExpired);
    assert_eq!(store.load(), Ok(None));
    assert!(!is_logged_in(&store));
}

#[test]
fn denied_poll_fails_login_without_a_partial_write() {
    let mut store = TokenStore::new();
    let err = complete_login(
        &mut store,
        PollStep::Failed(AuthError::PollDenied),
        NOW,
        Vec::new(),
        Vec::new(),
        Vec::new(),
    )
    .unwrap_err();
    assert_eq!(err, AuthError::PollDenied);
    assert!(store.record().is_none());
}

#[test]
fn fresh_token_needs_no_network_call() {
    let mut store = TokenStore::new();
    let mut token = login_succeeded(&mut store);
    token.expires_at_epoch_s = NOW + 600;
    store.save(&token);
    // Ten minutes to expiry against a five-minute margin: no call.
    let action = refresh_if_needed(&store, NOW, 300).unwrap();
    assert_eq!(action, RefreshAction::NoRefreshNeeded);
}

#[test]
fn token_inside_the_margin_asks_for_the_refresh_call() {
    let mut store = TokenStore::new();
    let mut token = login_succeeded(&mut store);
    token.expires_at_epoch_s = NOW + 200;
    store.save(&token);
    let action = refresh_if_needed(&store, NOW, 300).unwrap();
    assert_eq!(action, RefreshAction::CallRefresh(b"refresh".to_vec()));
}

#[test]
fn margin_boundary_counts_as_needing_refresh() {
    let mut store = TokenStore::new();
    let mut token = login_succeeded(&mut store);
    token.expires_at_epoch_s = NOW + 300;
    store.save(&token);
    let action = refresh_if_needed(&store, NOW, 300).unwrap();
    assert_eq!(action, RefreshAction::CallRefresh(b"refresh".to_vec()));
}

#[test]
fn expired_token_without_refresh_token_demands_relogin() {
    let mut store = TokenStore::new();
    let mut token = login_succeeded(&mut store);
    token.expires_at_epoch_s = NOW - 1;
    token.refresh_token = None;
    store.save(&token);
    let before = store.record().clone();
    let err = refresh_if_needed(&store, NOW, 300).unwrap_err();
    assert_eq!(err, AuthError::RefreshUnavailable);
    // The judgment mutated nothing.
    assert_eq!(store.record(), &before);
    assert!(is_logged_in(&store));
}

#[test]
fn refresh_on_an_empty_store_names_the_absence() {
    let store = TokenStore::new();
    let err = refresh_if_needed(&store, NOW, 300).unwrap_err();
    assert_eq!(err, AuthError::NoTokenPresent);
}

#[test]
fn refresh_on_a_corrupt_record_names_the_corruption() {
    let store = TokenStore::from_record(Some(vec![9, 9]));
    let err = refresh_if_needed(&store, NOW, 300).unwrap_err();
    assert_eq!(err, AuthError::TokenCorrupted);
}

#[test]
fn applied_refresh_replaces_credential_and_keeps_issuance_parameters() {
    let mut store = TokenStore::new();
    let old = login_succeeded(&mut store);
    let new_payload = TokenPayload {
        access_token: b"access-2".to_vec(),
        refresh_token: Some(b"refresh-2".to_vec()),
        expires_in_s: 1800,
    };
    let renewed = apply_refresh(&mut store, old.clone(), new_payload, NOW + 3300);
    assert_eq!(renewed.access_token, b"access-2".to_vec());
    assert_eq!(renewed.refresh_token, Some(b"refresh-2".to_vec()));
    assert_eq!(renewed.expires_at_epoch_s, NOW + 3300 + 1800);
    assert_eq!(renewed.region, old.region);
    assert_eq!(renewed.start_url, old.start_url);
    assert_eq!(renewed.scopes, old.scopes);
    assert_eq!(store.load().unwrap().unwrap(), renewed);
}

#[test]
fn refresh_payload_without_refresh_token_keeps_the_old_one() {
    let mut store = TokenStore::new();
    let old = login_succeeded(&mut store);
    let new_payload = TokenPayload {
        access_token: b"access-2".to_vec(),
        refresh_token: None,
        expires_in_s: 1800,
    };
    let renewed = apply_refresh(&mut store, old.clone(), new_payload, NOW + 3300);
    assert_eq!(renewed.refresh_token, old.refresh_token);
}

#[test]
fn logout_survives_a_failed_settings_clear() {
    let mut store = TokenStore::new();
    login_succeeded(&mut store);
    let report = logout(&mut store, true, false).expect("token removal decides the outcome");
    assert_eq!(report, LogoutReport { settings_warning: true });
    assert!(!is_logged_in(&store));
    assert!(store.record().is_none());
}

#[test]
fn logout_fails_only_when_the_token_survives() {
    let mut store = TokenStore::new();
    let token = login_succeeded(&mut store);
    let err = logout(&mut store, false, true).unwrap_err();
    assert!(matches!(err, AuthError::PersistenceFailure(_)));
    assert!(is_logged_in(&store));
    assert_eq!(store.load().unwrap().unwrap(), token);
}

#[test]
fn mismatch_is_fatal_while_poll_outcomes_invite_retry() {
    assert!(!AuthError::StateOrPkceMismatch.is_retryable_by_new_attempt());
    assert!(AuthError::PollExpired.is_retryable_by_new_attempt());
    assert!(AuthError::PollDenied.is_retryable_by_new_attempt());
}
