use baia_core::auth::{bootstrap_initial_admin, hash_password, verify_password, BootstrapAdmin, BootstrapState};

#[test]
fn bootstrap_generates_single_use_temporary_admin_when_missing() {
    let state = BootstrapState::NoAdmin;

    let mut admin = bootstrap_initial_admin(state).expect("admin should be generated");

    assert_eq!(admin.username, "admin");
    assert!(admin.password_change_required);
    assert!(admin.email_required);
    assert!(admin.temporary_password.expose_for_initial_log_once().len() >= 24);
}

#[test]
fn bootstrap_is_noop_when_admin_exists() {
    let state = BootstrapState::AdminExists;

    let admin = bootstrap_initial_admin(state);

    assert_eq!(admin, None);
}

#[test]
fn temporary_password_can_only_be_exposed_once() {
    let mut admin = BootstrapAdmin::new("admin");

    let first = admin.temporary_password.expose_for_initial_log_once();
    let second = admin.temporary_password.expose_for_initial_log_once();

    assert!(!first.is_empty());
    assert!(second.is_empty());
}

#[test]
fn temporary_password_is_thirty_two_alphanumerics_and_matches_the_stored_hash() {
    let mut admin = BootstrapAdmin::new("operator");
    let password = admin.temporary_password.expose_for_initial_log_once();

    assert_eq!(admin.username, "operator");
    assert_eq!(password.len(), 32);
    assert!(password.chars().all(|c| c.is_ascii_alphanumeric()));
    assert!(admin.password_hash.starts_with("$argon2id$"));
    assert!(verify_password(&password, &admin.password_hash));
    assert!(!verify_password("not-the-password", &admin.password_hash));
}

#[test]
fn password_hash_round_trips_and_uses_a_fresh_salt() {
    let first = hash_password("Correct-Horse-Battery-9");
    let second = hash_password("Correct-Horse-Battery-9");

    assert_ne!(first, second);
    assert!(verify_password("Correct-Horse-Battery-9", &first));
    assert!(verify_password("Correct-Horse-Battery-9", &second));
    assert!(!verify_password("correct-horse-battery-9", &first));
    assert!(!verify_password("Correct-Horse-Battery-9", "not a phc string"));
}

#[test]
fn bootstrap_admins_compare_by_username_and_first_login_requirements() {
    let a = BootstrapAdmin::new("admin");
    let b = BootstrapAdmin::new("admin");
    let c = BootstrapAdmin::new("other");

    assert_eq!(a, b);
    assert_ne!(a, c);
}
