use labyrinth_core::auth::{
    authentication_credentials, begin_login, complete_with_hardware_key,
    complete_with_one_time_code, may_change_role, register_hardware_key_begin,
    register_hardware_key_finish, registration_excluded_ids, HardwareKeyResponse, LoginOutcome,
};
use labyrinth_core::error::Error;
use labyrinth_core::second_factor::code_for_window;
use labyrinth_core::session::SessionIssuer;
use labyrinth_core::store::Store;
use labyrinth_core::strutil::hash_password;
use labyrinth_core::types::{
    ChallengeKind, HardwareCredential, Role, SecondFactor, User,
};

fn user(name: &str, password: &str, factors: Vec<SecondFactor>, activated: bool) -> User {
    User {
        id: 1,
        username: name.to_string(),
        email: format!("{}@example.org", name),
        role: Role::Regular,
        hash: hash_password(password),
        pin: if activated { None } else { Some(123456) },
        activated,
        created: Some(0),
        registered: None,
        last_login: None,
        solved: Vec::new(),
        rooms_entered: Vec::new(),
        level: 0,
        score: 0,
        in_room: if activated { Some(10) } else { None },
        awaiting_second_factor: false,
        second_factors: factors,
        totp_key: vec![1, 2, 3, 4],
        recovery_keys: Vec::new(),
        challenge: None,
        webauthn_credentials: Vec::new(),
    }
}

fn store_with(users: Vec<User>) -> Store {
    Store { users, rooms: Vec::new(), riddles: Vec::new() }
}

fn issuer() -> SessionIssuer {
    SessionIssuer::new(vec![9, 9, 9], 3600)
}

#[test]
fn password_only_login_authenticates() {
    // scenario: password-only user goes straight to a session
    let mut store = store_with(vec![user("alice", "correct-pw", vec![], true)]);
    let iss = issuer();
    let r = begin_login(&mut store, &iss, "alice", "correct-pw", 1000);
    match r {
        Ok(LoginOutcome::Authenticated(t)) => {
            assert_eq!(t.user_id, 1);
            assert_eq!(t.expires_at, 1000 + 3600);
            let v = iss.validate(&t, 1500).unwrap();
            assert_eq!(v.0, 1);
            assert!(matches!(v.1, Role::Regular));
        }
        _ => panic!("expected a session"),
    }
    assert_eq!(store.users[0].last_login, Some(1000));
    assert!(!store.users[0].awaiting_second_factor);
}

#[test]
fn wrong_password_is_rejected() {
    let mut store = store_with(vec![user("alice", "correct-pw", vec![], true)]);
    let iss = issuer();
    let r = begin_login(&mut store, &iss, "alice", "wrong-pw", 1000);
    assert!(matches!(r, Err(Error::WrongCredentials)));
    assert_eq!(store.users[0].last_login, None);
}

#[test]
fn unknown_user_is_rejected() {
    let mut store = store_with(vec![]);
    let iss = issuer();
    let r = begin_login(&mut store, &iss, "nobody", "pw", 1000);
    assert!(matches!(r, Err(Error::UserNotFound)));
}

#[test]
fn non_activated_user_never_authenticates() {
    // a non-activated user is turned away at the password step, even with
    // the right password
    let mut store = store_with(vec![user("carol", "correct-pw", vec![], false)]);
    let iss = issuer();
    let r = begin_login(&mut store, &iss, "carol", "correct-pw", 1000);
    assert!(matches!(r, Err(Error::NotActivated)));
    assert!(!store.users[0].awaiting_second_factor);
    assert_eq!(store.users[0].last_login, None);
}

#[test]
fn second_factor_wait_and_wrong_code() {
    // scenario: a one-time-code user lands in the waiting state, and a
    // wrong code leaves that state exactly as it was
    let mut store = store_with(vec![user("bob", "pw", vec![SecondFactor::Totp], true)]);
    let iss = issuer();
    let r = begin_login(&mut store, &iss, "bob", "pw", 0);
    match r {
        Ok(LoginOutcome::AwaitingSecondFactor(fs)) => {
            assert_eq!(fs.len(), 1);
            assert!(matches!(fs[0], SecondFactor::Totp));
        }
        _ => panic!("expected a second-factor wait"),
    }
    assert!(store.users[0].awaiting_second_factor);
    // pick a code that no accepted window produces
    let key = store.users[0].totp_key.clone();
    let c0 = code_for_window(&key, 0);
    let c1 = code_for_window(&key, 1);
    let mut bad = 0u32;
    while bad == c0 || bad == c1 {
        bad += 1;
    }
    let r = complete_with_one_time_code(&mut store, &iss, "bob", bad, 0);
    assert!(matches!(r, Err(Error::WrongCredentials)));
    assert!(store.users[0].awaiting_second_factor);
    assert_eq!(store.users[0].last_login, None);
}

#[test]
fn right_code_completes_login() {
    let mut store = store_with(vec![user("bob", "pw", vec![SecondFactor::Totp], true)]);
    let iss = issuer();
    begin_login(&mut store, &iss, "bob", "pw", 60).unwrap();
    let code = code_for_window(&store.users[0].totp_key, 2);
    let r = complete_with_one_time_code(&mut store, &iss, "bob", code, 60);
    let t = r.unwrap();
    assert_eq!(t.user_id, 1);
    assert!(!store.users[0].awaiting_second_factor);
    assert_eq!(store.users[0].last_login, Some(60));
}

#[test]
fn code_without_wait_is_rejected() {
    let mut store = store_with(vec![user("bob", "pw", vec![SecondFactor::Totp], true)]);
    let iss = issuer();
    let code = code_for_window(&store.users[0].totp_key, 0);
    let r = complete_with_one_time_code(&mut store, &iss, "bob", code, 0);
    assert!(matches!(r, Err(Error::SecondFactorMissing)));
}

fn hardware_user(name: &str) -> User {
    let mut u = user(name, "pw", vec![SecondFactor::Totp, SecondFactor::Fido2], true);
    u.webauthn_credentials = vec![HardwareCredential {
        cred_id: vec![7, 7],
        public_key: vec![1],
        counter: 5,
    }];
    u
}

#[test]
fn either_second_factor_authenticates() {
    // with both factors enabled, the one-time code alone completes...
    let mut store = store_with(vec![hardware_user("dora")]);
    let iss = issuer();
    begin_login(&mut store, &iss, "dora", "pw", 90).unwrap();
    let code = code_for_window(&store.users[0].totp_key, 3);
    assert!(complete_with_one_time_code(&mut store, &iss, "dora", code, 90).is_ok());

    // ...and so does the hardware key alone
    let mut store = store_with(vec![hardware_user("dora")]);
    begin_login(&mut store, &iss, "dora", "pw", 90).unwrap();
    store
        .issue_challenge("dora", ChallengeKind::Authentication, vec![42], 90)
        .unwrap();
    let state = store
        .consume_challenge("dora", ChallengeKind::Authentication)
        .unwrap();
    assert_eq!(state, vec![42]);
    let response = HardwareKeyResponse { cred_id: vec![7, 7], counter: 6, signature_valid: true };
    let t = complete_with_hardware_key(&mut store, &iss, "dora", &response, 90).unwrap();
    assert_eq!(t.user_id, 1);
    assert_eq!(store.users[0].webauthn_credentials[0].counter, 6);
    assert!(!store.users[0].awaiting_second_factor);
}

#[test]
fn both_factor_kinds_are_offered() {
    let mut store = store_with(vec![hardware_user("dora")]);
    let iss = issuer();
    match begin_login(&mut store, &iss, "dora", "pw", 0) {
        Ok(LoginOutcome::AwaitingSecondFactor(fs)) => {
            assert_eq!(fs, vec![SecondFactor::Totp, SecondFactor::Fido2]);
        }
        _ => panic!("expected a second-factor wait"),
    }
}

#[test]
fn hardware_key_without_wait_is_rejected() {
    // no pending second-factor wait means no ceremony to complete
    let mut store = store_with(vec![hardware_user("dora")]);
    let iss = issuer();
    let response = HardwareKeyResponse { cred_id: vec![7, 7], counter: 6, signature_valid: true };
    let r = complete_with_hardware_key(&mut store, &iss, "dora", &response, 0);
    assert!(matches!(r, Err(Error::ChallengeNotFound)));
}

#[test]
fn challenge_consumption_is_exactly_once() {
    // replaying against a consumed challenge fails with ChallengeNotFound,
    // whatever the first verification came to
    let mut store = store_with(vec![hardware_user("dora")]);
    store
        .issue_challenge("dora", ChallengeKind::Authentication, vec![1, 2], 0)
        .unwrap();
    assert!(store
        .consume_challenge("dora", ChallengeKind::Authentication)
        .is_ok());
    let again = store.consume_challenge("dora", ChallengeKind::Authentication);
    assert!(matches!(again, Err(Error::ChallengeNotFound)));
}

#[test]
fn challenge_kind_must_match() {
    let mut store = store_with(vec![hardware_user("dora")]);
    store
        .issue_challenge("dora", ChallengeKind::Registration, vec![1], 0)
        .unwrap();
    let r = store.consume_challenge("dora", ChallengeKind::Authentication);
    assert!(matches!(r, Err(Error::ChallengeNotFound)));
    // the registration challenge is still live
    assert!(store
        .consume_challenge("dora", ChallengeKind::Registration)
        .is_ok());
}

#[test]
fn stale_counter_is_rejected() {
    // a counter at or below the stored one marks a cloned authenticator
    let mut store = store_with(vec![hardware_user("dora")]);
    let iss = issuer();
    begin_login(&mut store, &iss, "dora", "pw", 0).unwrap();
    let response = HardwareKeyResponse { cred_id: vec![7, 7], counter: 5, signature_valid: true };
    let r = complete_with_hardware_key(&mut store, &iss, "dora", &response, 0);
    assert!(matches!(r, Err(Error::AuthenticationFailure)));
    assert_eq!(store.users[0].webauthn_credentials[0].counter, 5);
}

#[test]
fn bad_signature_is_rejected() {
    let mut store = store_with(vec![hardware_user("dora")]);
    let iss = issuer();
    begin_login(&mut store, &iss, "dora", "pw", 0).unwrap();
    let response = HardwareKeyResponse { cred_id: vec![7, 7], counter: 9, signature_valid: false };
    let r = complete_with_hardware_key(&mut store, &iss, "dora", &response, 0);
    assert!(matches!(r, Err(Error::AuthenticationFailure)));
}

#[test]
fn hardware_login_needs_an_enrolled_credential() {
    // opening a hardware-login challenge is refused for a user with no
    // credential, and the enrolled ones are named otherwise
    let store = store_with(vec![user("bob", "pw", vec![SecondFactor::Totp], true)]);
    let r = authentication_credentials(&store, "bob");
    assert!(matches!(r, Err(Error::SecondFactorMissing)));
    assert!(matches!(
        authentication_credentials(&store, "nobody"),
        Err(Error::UserNotFound)
    ));

    let store = store_with(vec![hardware_user("dora")]);
    let creds = authentication_credentials(&store, "dora").unwrap();
    assert_eq!(creds.len(), 1);
    assert_eq!(creds[0].cred_id, vec![7, 7]);

    let mut sleeping = store_with(vec![hardware_user("dora")]);
    sleeping.users[0].activated = false;
    sleeping.users[0].in_room = None;
    sleeping.users[0].pin = Some(1);
    assert!(matches!(
        authentication_credentials(&sleeping, "dora"),
        Err(Error::NotActivated)
    ));
}

#[test]
fn hardware_key_enrollment_round() {
    let mut store = store_with(vec![hardware_user("dora")]);
    let excluded = registration_excluded_ids(&store, "dora").unwrap();
    assert_eq!(excluded, vec![vec![7, 7]]);
    register_hardware_key_begin(&mut store, "dora", vec![5, 5], 10).unwrap();
    let state = store
        .consume_challenge("dora", ChallengeKind::Registration)
        .unwrap();
    assert_eq!(state, vec![5, 5]);
    let fresh = HardwareCredential { cred_id: vec![8, 8], public_key: vec![2], counter: 0 };
    register_hardware_key_finish(&mut store, "dora", Some(fresh)).unwrap();
    assert_eq!(store.users[0].webauthn_credentials.len(), 2);
    assert_eq!(store.users[0].webauthn_credentials[1].cred_id, vec![8, 8]);
}

#[test]
fn enrolling_same_credential_twice_conflicts() {
    let mut store = store_with(vec![hardware_user("dora")]);
    let dup = HardwareCredential { cred_id: vec![7, 7], public_key: vec![2], counter: 0 };
    let r = register_hardware_key_finish(&mut store, "dora", Some(dup));
    assert!(matches!(r, Err(Error::Conflict)));
    assert_eq!(store.users[0].webauthn_credentials.len(), 1);
}

#[test]
fn failed_attestation_is_reported() {
    let mut store = store_with(vec![hardware_user("dora")]);
    let r = register_hardware_key_finish(&mut store, "dora", None);
    assert!(matches!(r, Err(Error::AuthenticationFailure)));
}

#[test]
fn role_change_rules() {
    assert!(may_change_role(1, Role::Admin, 2, Role::Regular, Role::Moderator).is_ok());
    assert!(matches!(
        may_change_role(1, Role::Moderator, 2, Role::Regular, Role::Moderator),
        Err(Error::InsufficientRights)
    ));
    assert!(matches!(
        may_change_role(1, Role::Admin, 1, Role::Regular, Role::Moderator),
        Err(Error::CannotChangeOwnRole)
    ));
    assert!(matches!(
        may_change_role(1, Role::Admin, 2, Role::Moderator, Role::Moderator),
        Err(Error::CannotChangeToSameOrLowerRole)
    ));
    assert!(matches!(
        may_change_role(1, Role::Admin, 2, Role::Admin, Role::Regular),
        Err(Error::CannotChangeToSameOrLowerRole)
    ));
}

#[test]
fn token_validation_outcomes() {
    let iss = issuer();
    let t = iss.issue(4, Role::Moderator, 100);
    assert_eq!(iss.validate(&t, 200).unwrap(), (4, Role::Moderator));
    // outlived
    let r = iss.validate(&t, 100 + 3600 + 1);
    assert!(matches!(r, Err(Error::TokenExpired)));
    // tampered payload no longer matches the tag
    let mut forged = iss.issue(4, Role::Moderator, 100);
    forged.user_id = 5;
    let r = iss.validate(&forged, 200);
    assert!(matches!(r, Err(Error::TokenInvalid)));
    // a different key rejects the tag
    let other = SessionIssuer::new(vec![1], 3600);
    let r = other.validate(&t, 200);
    assert!(matches!(r, Err(Error::TokenInvalid)));
}
