use labyrinth_core::error::Error;
use labyrinth_core::second_factor::{code_for_window, provision, verify_one_time_code, window_of};
use labyrinth_core::store::{make_recovery_key, Store};
use labyrinth_core::strutil::{
    constant_time_str_eq, digest_str, eq_ignore_ascii_case, hash_password, str_eq,
};
use labyrinth_core::types::{KeyChars, Role, SecondFactor, User};

#[test]
fn string_comparisons() {
    assert!(str_eq("doorway", "doorway"));
    assert!(!str_eq("doorway", "doorways"));
    assert!(!str_eq("north", "south"));
    assert!(constant_time_str_eq("secret", "secret"));
    assert!(!constant_time_str_eq("secret", "secreu"));
    assert!(!constant_time_str_eq("secret", "secre"));
    assert!(eq_ignore_ascii_case("Sphinx", "sPHINX"));
    assert!(!eq_ignore_ascii_case("Sphinx", "Sphinxes"));
    assert!(!eq_ignore_ascii_case("abc", "abd"));
}

#[test]
fn digest_has_known_values() {
    // the empty string folds to the bare seed, and the hex rendering pads
    // to sixteen digits: 5381 is 0x1505
    assert_eq!(digest_str(""), 5381);
    assert_eq!(hash_password(""), "0000000000001505");
    // one character folds once: 5381 * 131 + 'a' (97) = 705008 = 0xac1f0
    assert_eq!(digest_str("a"), 705008);
    assert_eq!(hash_password("a"), "00000000000ac1f0");
    assert_ne!(hash_password("correct-pw"), hash_password("wrong-pw"));
}

#[test]
fn one_time_codes_accept_one_window_of_skew() {
    let key = vec![10, 20, 30];
    let w = window_of(90);
    assert_eq!(w, 3);
    let here = code_for_window(&key, 3);
    let before = code_for_window(&key, 2);
    let after = code_for_window(&key, 4);
    assert!(verify_one_time_code(&key, here, 3));
    assert!(verify_one_time_code(&key, before, 3));
    assert!(verify_one_time_code(&key, after, 3));
    let far = code_for_window(&key, 6);
    if far != here && far != before && far != after {
        assert!(!verify_one_time_code(&key, far, 3));
    }
    // an empty secret folds to the window itself, reduced to six digits
    assert_eq!(code_for_window(&Vec::new(), 5), 5);
}

#[test]
fn provisioned_secret_has_fixed_length() {
    let secret = provision();
    assert_eq!(secret.len(), 32);
}

#[test]
fn recovery_keys_have_the_documented_shape() {
    let key = make_recovery_key();
    let bytes = key.as_bytes();
    assert_eq!(bytes.len(), 19);
    for (i, b) in bytes.iter().enumerate() {
        if i == 4 || i == 9 || i == 14 {
            assert_eq!(*b, b'-');
        } else {
            assert!(
                (b'a'..=b'z').contains(b) && *b != b'l' || (b'0'..=b'9').contains(b),
                "unexpected recovery-key byte {}",
                b
            );
        }
    }
}

#[test]
fn key_chars_map_draws_into_the_alphabet() {
    let kc = KeyChars;
    assert_eq!(kc.sample(0), b'a');
    assert_eq!(kc.sample(10), b'k');
    assert_eq!(kc.sample(11), b'm');
    assert_eq!(kc.sample(24), b'z');
    assert_eq!(kc.sample(25), b'0');
    assert_eq!(kc.sample(34), b'9');
    assert_eq!(kc.sample(35), b'a');
    for x in 0..200u32 {
        let c = kc.sample(x);
        assert!((b'a'..=b'z').contains(&c) && c != b'l' || (b'0'..=b'9').contains(&c));
    }
}

#[test]
fn second_factor_names_round_trip() {
    assert_eq!(SecondFactor::from_str("TOTP"), SecondFactor::Totp);
    assert_eq!(SecondFactor::from_str("FIDO2"), SecondFactor::Fido2);
    assert_eq!(SecondFactor::from_str("anything"), SecondFactor::Totp);
    assert_eq!(SecondFactor::Totp.as_str(), "TOTP");
    assert_eq!(SecondFactor::Fido2.as_str(), "FIDO2");
    assert_eq!(
        SecondFactor::from_str(SecondFactor::Fido2.as_str()),
        SecondFactor::Fido2
    );
}

#[test]
fn error_codes_are_stable() {
    assert_eq!(Error::UserNotFound.code(), "user not found");
    assert_eq!(Error::DoorwayNotAccessible.code(), "doorway not accessible");
    assert_eq!(Error::TokenExpired.code(), "token expired");
}

#[test]
fn new_user_record_is_blank() {
    let u = User::new(
        "frank",
        "frank@example.org",
        Role::Regular,
        hash_password("pw"),
        SecondFactor::Totp,
        Some(111111),
        77,
    );
    assert_eq!(u.id, 0);
    assert_eq!(u.username, "frank");
    assert_eq!(u.email, "frank@example.org");
    assert!(!u.activated);
    assert_eq!(u.created, Some(77));
    assert_eq!(u.pin, Some(111111));
    assert_eq!(u.in_room, None);
    assert_eq!(u.second_factors, vec![SecondFactor::Totp]);
    assert!(u.solved.is_empty());
    assert!(u.recovery_keys.is_empty());
    assert!(u.challenge.is_none());
}

fn entry_world() -> Store {
    let mut store = Store::new();
    store.rooms.push(labyrinth_core::types::Room {
        id: 50,
        number: 1,
        coords: None,
        neighbors: Vec::new(),
        game_id: 1,
        entry: Some(true),
        exit: None,
    });
    store
}

#[test]
fn create_and_activate_user() {
    let mut store = entry_world();
    let u = User::new(
        "grace",
        "grace@example.org",
        Role::Regular,
        hash_password("pw"),
        SecondFactor::Totp,
        Some(222222),
        0,
    );
    let id = store.create_user(u).unwrap();
    assert!(id > 0);
    // wrong pin changes nothing
    let r = store.activate_user("grace", 999999, 5);
    assert!(matches!(r, Err(Error::UserNotFound)));
    assert!(!store.users[0].activated);
    // the right pin activates: entry room, cleared pin, fresh material
    store.activate_user("grace", 222222, 5).unwrap();
    let u = &store.users[0];
    assert!(u.activated);
    assert_eq!(u.in_room, Some(50));
    assert_eq!(u.rooms_entered, vec![50]);
    assert_eq!(u.pin, None);
    assert_eq!(u.registered, Some(5));
    assert_eq!(u.recovery_keys.len(), 10);
    for key in &u.recovery_keys {
        assert_eq!(key.len(), 19);
        assert_eq!(key.as_bytes()[4], b'-');
        assert_eq!(key.as_bytes()[9], b'-');
        assert_eq!(key.as_bytes()[14], b'-');
    }
    assert_eq!(u.totp_key.len(), 32);
    // activating again changes nothing
    let r = store.activate_user("grace", 222222, 6);
    assert!(matches!(r, Err(Error::UserNotFound)));
}

#[test]
fn duplicate_names_are_refused() {
    let mut store = entry_world();
    let mk = |name: &str, email: &str| {
        User::new(
            name,
            email,
            Role::Regular,
            hash_password("pw"),
            SecondFactor::Totp,
            None,
            0,
        )
    };
    store.create_user(mk("grace", "grace@example.org")).unwrap();
    let r = store.create_user(mk("grace", "other@example.org"));
    assert!(matches!(r, Err(Error::UsernameOrEmailNotAvailable)));
    let r = store.create_user(mk("other", "grace@example.org"));
    assert!(matches!(r, Err(Error::UsernameOrEmailNotAvailable)));
    assert_eq!(store.users.len(), 1);
}

#[test]
fn activation_needs_an_entry_room() {
    let mut store = Store::new();
    let u = User::new(
        "henry",
        "henry@example.org",
        Role::Regular,
        hash_password("pw"),
        SecondFactor::Totp,
        Some(1),
        0,
    );
    store.create_user(u).unwrap();
    let r = store.activate_user("henry", 1, 0);
    assert!(matches!(r, Err(Error::RoomNotFound)));
}

#[test]
fn pin_lookup_only_before_activation() {
    let mut store = entry_world();
    let u = User::new(
        "iris",
        "iris@example.org",
        Role::Regular,
        hash_password("pw"),
        SecondFactor::Totp,
        Some(42),
        0,
    );
    store.create_user(u).unwrap();
    assert!(store.get_user_with_pin("iris", 42).is_ok());
    assert!(matches!(
        store.get_user_with_pin("iris", 41),
        Err(Error::UserNotFound)
    ));
    store.activate_user("iris", 42, 0).unwrap();
    assert!(matches!(
        store.get_user_with_pin("iris", 42),
        Err(Error::UserNotFound)
    ));
}

#[test]
fn guarded_updates_respect_activation() {
    let mut store = entry_world();
    let u = User::new(
        "judy",
        "judy@example.org",
        Role::Regular,
        hash_password("pw"),
        SecondFactor::Totp,
        Some(7),
        0,
    );
    store.create_user(u).unwrap();
    // the activation guard holds these back
    assert!(matches!(
        store.set_user_awaiting_2fa("judy"),
        Err(Error::Conflict)
    ));
    assert!(matches!(
        store.login_user("judy", 1),
        Err(Error::Conflict)
    ));
    assert!(matches!(
        store.rewrite_user_score("judy", 10),
        Err(Error::Conflict)
    ));
    assert!(matches!(
        store.set_user_solved("judy", vec![1, 2], 1, 5),
        Err(Error::Conflict)
    ));
    store.activate_user("judy", 7, 0).unwrap();
    store.set_user_awaiting_2fa("judy").unwrap();
    assert!(store.users[0].awaiting_second_factor);
    store.login_user("judy", 9).unwrap();
    assert!(!store.users[0].awaiting_second_factor);
    assert_eq!(store.users[0].last_login, Some(9));
    store.set_user_solved("judy", vec![1, 2], 3, 40).unwrap();
    assert_eq!(store.users[0].solved, vec![1, 2]);
    assert_eq!(store.users[0].level, 3);
    assert_eq!(store.users[0].score, 40);
    store.rewrite_user_score("judy", 12).unwrap();
    assert_eq!(store.users[0].score, 12);
}
