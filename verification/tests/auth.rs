use egakareta::auth::{AuthMessage, AuthRequest, AuthServiceMessage, AuthSession};
use egakareta::state::State;

fn new_state() -> State {
    State::new(vec!["Flowerfield".to_string()], 8, Vec::new())
}

fn test_auth_session(username: Option<&str>, email: Option<&str>) -> AuthSession {
    AuthSession {
        access_token: "access".to_string(),
        refresh_token: "refresh".to_string(),
        email: email.map(|s| s.to_string()),
        username: username.map(|s| s.to_string()),
    }
}

#[test]
fn auth_display_name_prefers_profile_username_then_email() {
    let mut state = new_state();
    assert_eq!(state.auth_display_name(), None);

    state.auth.session = Some(test_auth_session(Some("player"), Some("player@example.com")));
    assert_eq!(state.auth_display_name(), Some("player".to_string()));

    state.auth.session = Some(test_auth_session(None, Some("player@example.com")));
    assert_eq!(state.auth_display_name(), Some("player@example.com".to_string()));

    state.auth.session = Some(test_auth_session(None, None));
    assert_eq!(state.auth_display_name(), None);
}

#[test]
fn auth_actions_ignore_pending_or_missing_session_guards() {
    let mut state = new_state();

    state.auth.pending = true;
    state.submit_auth_sign_in();
    assert!(state.auth.pending);
    assert_eq!(state.auth.message, None);

    state.auth.pending = false;
    state.refresh_auth_session();
    assert!(!state.auth.refresh_started);

    state.auth.session = Some(test_auth_session(Some("player"), Some("player@example.com")));
    state.auth.pending = true;
    state.refresh_auth_session();
    assert!(!state.auth.refresh_started);

    state.auth.pending = false;
    state.auth.refresh_started = true;
    state.refresh_auth_session();
    assert!(state.auth.refresh_started);

    state.auth.pending = true;
    state.auth.message = Some(AuthMessage::Error("keep me".to_string()));
    state.sign_out_auth_session();
    assert_eq!(state.auth.message, Some(AuthMessage::Error("keep me".to_string())));
}

#[test]
fn update_auth_results_applies_sign_in_success_and_failure() {
    let mut state = new_state();
    let session = test_auth_session(Some("player"), Some("player@example.com"));

    state.auth.pending = true;
    state.update_auth_results(vec![AuthServiceMessage::SignedIn(Ok(session.clone()))]);

    assert!(!state.auth.pending);
    assert_eq!(state.auth.session, Some(session));
    assert!(state.auth.refresh_started);
    assert_eq!(state.auth.message, None);

    state.auth.pending = true;
    state.update_auth_results(vec![AuthServiceMessage::SignedIn(Err("sign-in failed".to_string()))]);

    assert!(!state.auth.pending);
    assert_eq!(state.auth.message, Some(AuthMessage::Error("sign-in failed".to_string())));
}

#[test]
fn update_auth_results_applies_refresh_success_and_failure() {
    let mut state = new_state();
    let original = test_auth_session(Some("old"), Some("old@example.com"));
    let refreshed = test_auth_session(Some("new"), Some("new@example.com"));

    state.auth.session = Some(original);
    state.auth.refresh_started = true;
    state.update_auth_results(vec![AuthServiceMessage::Refreshed(Ok(refreshed.clone()))]);

    assert_eq!(state.auth.session, Some(refreshed));
    assert!(state.auth.refresh_started);
    assert_eq!(state.auth.message, None);

    state.update_auth_results(vec![AuthServiceMessage::Refreshed(Err("refresh failed".to_string()))]);

    assert_eq!(state.auth.session, None);
    assert!(!state.auth.refresh_started);
    assert_eq!(state.auth.message, Some(AuthMessage::Error("refresh failed".to_string())));
}

#[test]
fn update_auth_results_applies_sign_out_success_and_failure() {
    let mut state = new_state();

    state.auth.session = Some(test_auth_session(Some("player"), Some("player@example.com")));
    state.auth.pending = true;
    state.auth.refresh_started = true;
    state.update_auth_results(vec![AuthServiceMessage::SignedOut(Ok(()))]);

    assert!(!state.auth.pending);
    assert!(!state.auth.refresh_started);
    assert_eq!(state.auth.session, None);
    assert_eq!(state.auth.message, None);

    state.auth.session = Some(test_auth_session(None, Some("player@example.com")));
    state.auth.pending = true;
    state.auth.refresh_started = true;
    state.update_auth_results(vec![AuthServiceMessage::SignedOut(Err("sign-out failed".to_string()))]);

    assert!(!state.auth.pending);
    assert!(!state.auth.refresh_started);
    assert_eq!(state.auth.session, None);
    assert_eq!(state.auth.message, Some(AuthMessage::Error("sign-out failed".to_string())));
}

#[test]
fn sign_in_queues_a_request_and_shows_the_prompt() {
    let mut state = new_state();
    state.submit_auth_sign_in();
    assert!(state.auth.pending);
    assert_eq!(state.auth.message, Some(AuthMessage::SignInPrompt));
    assert_eq!(state.auth.requests, vec![AuthRequest::SignIn]);
}

#[test]
fn signed_in_session_refreshes_once_on_update() {
    let mut state = new_state();
    state.auth.session = Some(test_auth_session(Some("player"), None));
    state.update_auth_results(Vec::new());
    assert!(state.auth.refresh_started);
    assert_eq!(state.auth.requests, vec![AuthRequest::Refresh { refresh_token: "refresh".to_string() }]);
    state.update_auth_results(Vec::new());
    assert_eq!(state.auth.requests.len(), 1);
}

#[test]
fn sign_out_sends_the_access_token() {
    let mut state = new_state();
    state.auth.session = Some(test_auth_session(Some("player"), None));
    state.sign_out_auth_session();
    assert!(state.auth.pending);
    assert_eq!(
        state.auth.requests,
        vec![AuthRequest::SignOut { access_token: Some("access".to_string()) }]
    );
    state.open_auth_signup_page();
    assert_eq!(state.auth.requests.last(), Some(&AuthRequest::OpenSignupPage));
}
