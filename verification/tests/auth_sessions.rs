use baia_core::config::PlatformConfig;
use baia_core::server::{
    constant_time_eq, expired_session_cookie, public_configuration, session_cookie, session_cookie_value,
    throttle_key, valid_password_policy, AuthState, ChangePasswordOutcome, LoginOutcome, MutationOutcome,
    LOGIN_LOCK_SECONDS, SESSION_TTL_SECONDS,
};

fn login_ok(state: &mut AuthState, password: &str, now: u64) -> (String, String) {
    match state.login(Some("198.51.100.7"), "admin", password, now) {
        LoginOutcome::Authenticated {
            session_id,
            csrf_token,
            username,
            password_change_required,
        } => {
            assert_eq!(username, "admin");
            assert!(password_change_required);
            (session_id, csrf_token)
        }
        other => panic!("login must succeed, got {other:?}"),
    }
}

fn cookie(session_id: &str) -> String {
    format!("theme=dark; baia_session={session_id}")
}

#[test]
fn login_creates_hardened_session_and_unlocks_admin_api() {
    let mut state = AuthState::with_initial_admin("correct-password");

    assert!(!state.authorize_read(None, 10));

    let (session_id, csrf) = login_ok(&mut state, "correct-password", 10);
    let set_cookie = session_cookie(&session_id, true);

    assert!(set_cookie.starts_with("baia_session="));
    assert!(set_cookie.contains("HttpOnly"));
    assert!(set_cookie.contains("Secure"));
    assert!(set_cookie.contains("SameSite=Strict"));
    assert!(set_cookie.contains("Path=/"));
    assert!(csrf.len() >= 32);
    assert_eq!(session_id.len(), 48);
    assert!(session_id.chars().all(|c| c.is_ascii_alphanumeric()));

    assert!(state.authorize_read(Some(&cookie(&session_id)), 11));
    let info = state
        .session_info(Some(&cookie(&session_id)), 12)
        .expect("session must be live");
    assert_eq!(info.username, "admin");
    assert!(info.password_change_required);
    assert_eq!(info.csrf_token, csrf);
}

#[test]
fn authenticated_mutations_require_csrf_token() {
    let mut state = AuthState::with_initial_admin("correct-password");
    let (session_id, csrf) = login_ok(&mut state, "correct-password", 100);
    let header = cookie(&session_id);

    assert_eq!(state.logout(Some(&header), None, 101), MutationOutcome::CsrfRejected);
    assert_eq!(
        state.logout(Some(&header), Some("wrong-token"), 101),
        MutationOutcome::CsrfRejected
    );
    assert_eq!(
        state.authorize_mutation(Some(&header), Some(&csrf), 102),
        MutationOutcome::Allowed
    );
    assert_eq!(state.logout(Some(&header), Some(&csrf), 103), MutationOutcome::Allowed);
    assert_eq!(
        state.logout(Some(&header), Some(&csrf), 104),
        MutationOutcome::Unauthenticated
    );
    assert!(!state.authorize_read(Some(&header), 104));
    assert_eq!(
        state.authorize_mutation(Some(&header), Some(&csrf), 105),
        MutationOutcome::Unauthenticated
    );
}

#[test]
fn repeated_invalid_logins_are_locked_without_leaking_account_state() {
    let mut state = AuthState::with_initial_admin("correct-password");

    for attempt in 0..5 {
        let outcome = state.login(None, "admin", "wrong-password", 1000 + attempt);
        assert!(matches!(outcome, LoginOutcome::InvalidCredentials));
    }
    let key = throttle_key(None, "admin");
    assert_eq!(state.failure_count(&key), 5);
    assert!(state.is_locked(&key, 1004));

    let locked = state.login(None, "admin", "correct-password", 1005);
    assert!(matches!(locked, LoginOutcome::Locked));
    let unknown = state.login(None, "nobody", "whatever", 1005);
    assert!(matches!(unknown, LoginOutcome::InvalidCredentials));

    let until = 1004 + LOGIN_LOCK_SECONDS;
    assert!(state.is_locked(&key, until - 1));
    assert!(!state.is_locked(&key, until));
    let unlocked = state.login(None, "admin", "correct-password", until);
    assert!(matches!(unlocked, LoginOutcome::Authenticated { .. }));
    assert_eq!(state.failure_count(&key), 0);
}

#[test]
fn four_failures_do_not_lock_and_keys_are_per_client_and_username() {
    let mut state = AuthState::with_initial_admin("correct-password");

    for attempt in 0..4 {
        state.login(Some("10.0.0.1"), " ADMIN ", "wrong", attempt);
    }
    let key = throttle_key(Some("10.0.0.1, 10.0.0.2"), "admin");
    assert_eq!(key, "10.0.0.1:admin");
    assert_eq!(state.failure_count(&key), 4);
    assert!(!state.is_locked(&key, 4));
    assert_eq!(state.failure_count(&throttle_key(Some("10.0.0.9"), "admin")), 0);
    login_ok(&mut state, "correct-password", 5);
}

#[test]
fn sessions_expire_after_their_lifetime() {
    let mut state = AuthState::with_initial_admin("correct-password");
    let (session_id, _) = login_ok(&mut state, "correct-password", 50);

    let last_valid = 50 + SESSION_TTL_SECONDS - 1;
    assert!(state.require_session_id(&session_id, last_valid).is_some());
    assert!(state.require_session_id(&session_id, last_valid + 1).is_none());
    assert!(state.require_session_id(&session_id, 0).is_none());
}

#[test]
fn password_change_requires_policy_and_current_password() {
    let mut state = AuthState::with_initial_admin("correct-password");
    let (session_id, csrf) = login_ok(&mut state, "correct-password", 1);
    let header = cookie(&session_id);
    let strong = "New-Passw0rd-Strong!";

    assert_eq!(
        state.change_password(Some(&header), None, "correct-password", strong, 2),
        ChangePasswordOutcome::CsrfRejected
    );
    assert_eq!(
        state.change_password(Some(&header), Some(&csrf), "correct-password", "short", 2),
        ChangePasswordOutcome::PolicyRejected
    );
    assert_eq!(
        state.change_password(Some(&header), Some(&csrf), "wrong", strong, 2),
        ChangePasswordOutcome::InvalidCredentials
    );
    assert_eq!(
        state.change_password(Some(&header), Some(&csrf), "correct-password", strong, 2),
        ChangePasswordOutcome::Changed
    );
    assert_eq!(
        state.change_password(None, Some(&csrf), "correct-password", strong, 2),
        ChangePasswordOutcome::Unauthenticated
    );

    assert!(matches!(
        state.login(None, "admin", "correct-password", 3),
        LoginOutcome::InvalidCredentials
    ));
    match state.login(None, "admin", strong, 4) {
        LoginOutcome::Authenticated {
            password_change_required,
            ..
        } => assert!(!password_change_required),
        other => panic!("login with the new password must succeed, got {other:?}"),
    }
}

#[test]
fn password_policy() {
    assert!(valid_password_policy("Abcdefghijklmn1!"));
    assert!(!valid_password_policy("Abcdefghijklm1!"));
    assert!(!valid_password_policy("abcdefghijklmn1!"));
    assert!(!valid_password_policy("ABCDEFGHIJKLMN1!"));
    assert!(!valid_password_policy("Abcdefghijklmno!"));
    assert!(!valid_password_policy("Abcdefghijklmno1"));
    assert!(valid_password_policy("Ábcdefghijklmn1 "));
}

#[test]
fn cookies_and_cookie_header_parsing() {
    assert_eq!(
        session_cookie("abc", true),
        "baia_session=abc; Path=/; HttpOnly; SameSite=Strict; Secure; Max-Age=28800"
    );
    assert_eq!(
        session_cookie("abc", false),
        "baia_session=abc; Path=/; HttpOnly; SameSite=Strict; Max-Age=28800"
    );
    assert_eq!(
        expired_session_cookie(true),
        "baia_session=; Path=/; HttpOnly; SameSite=Strict; Secure; Max-Age=0"
    );
    assert_eq!(session_cookie_value("baia_session=xyz"), Some("xyz".to_string()));
    assert_eq!(
        session_cookie_value("a=1;  baia_session=xyz ; b=2"),
        Some("xyz".to_string())
    );
    assert_eq!(session_cookie_value("a=1; other_session=x"), None);
    assert_eq!(session_cookie_value(""), None);
    assert_eq!(session_cookie_value("baia_session="), Some(String::new()));
}

#[test]
fn constant_time_comparison() {
    assert!(constant_time_eq(b"token", b"token"));
    assert!(!constant_time_eq(b"token", b"tokem"));
    assert!(!constant_time_eq(b"token", b"token2"));
    assert!(constant_time_eq(b"", b""));
}

#[test]
fn throttle_key_defaults_to_unknown_client() {
    assert_eq!(throttle_key(None, "Admin"), "unknown:admin");
    assert_eq!(throttle_key(Some("  , 1.2.3.4"), "x"), "unknown:x");
    assert_eq!(throttle_key(Some(" 1.2.3.4 "), "x"), "1.2.3.4:x");
}

#[test]
fn authenticated_configuration_returns_loaded_platform_configuration() {
    let mut config = PlatformConfig::default();
    config.modules.crowdsec.enabled = true;
    config.modules.powerdns.enabled = true;

    let public = public_configuration(&config);

    assert!(public.modules.crowdsec.enabled);
    assert!(public.modules.powerdns.enabled);
    assert_eq!(public.integrations.powerdns.mode, "integrated");
    assert!(public.integrations.powerdns.api_url_configured);
    assert!(public.integrations.powerdns.api_key_configured);
    assert!(public.integrations.crowdsec.local_api_configured);
    assert!(public.integrations.crowdsec.api_key_configured);

    config.integrations.crowdsec.api_key_env = None;
    assert!(!public_configuration(&config).integrations.crowdsec.api_key_configured);
}
