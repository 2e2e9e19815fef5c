use dashboard_core::auth::{decode_registry, encode_registry, AuthError, LocalAuth, UserRecord};
use dashboard_core::json::Json;

fn record(name: &str) -> UserRecord {
    UserRecord {
        username: name.to_string(),
        pin_phc: format!("hash-of-{name}"),
        created_at: "2024-03-10T12:00:00+00:00".to_string(),
    }
}

fn registry(names: &[&str]) -> LocalAuth {
    LocalAuth { users: names.iter().map(|n| record(n)).collect() }
}

#[test]
fn empty_registry_has_no_user() {
    let auth = LocalAuth::new();
    assert!(!auth.has_any_user());
    assert!(auth.list_users().is_empty());
    assert!(!auth.is_registered("ana"));
    assert!(registry(&["ana"]).has_any_user());
}

#[test]
fn users_are_listed_in_order_of_registration() {
    let auth = registry(&["ana", "bob", "cara"]);
    assert_eq!(auth.list_users(), vec!["ana", "bob", "cara"]);
}

#[test]
fn register_then_login() {
    let mut auth = LocalAuth::new();
    assert!(auth.register_user("ana", "1234").is_ok());
    assert!(auth.has_any_user());
    assert_eq!(auth.list_users(), vec!["ana"]);
    assert!(auth.users[0].pin_phc.starts_with("$argon2"));
    assert_ne!(auth.users[0].pin_phc, "1234");
    assert!(auth.users[0].created_at.contains('T'));
    assert!(auth.verify_login("ana", "1234").is_ok());
    assert!(matches!(auth.verify_login("ana", "4321"), Err(AuthError::InvalidPin)));
    assert!(matches!(auth.verify_login("ana", ""), Err(AuthError::InvalidPin)));
    assert!(matches!(auth.verify_login("bob", "1234"), Err(AuthError::NotFound)));
}

#[test]
fn same_pin_is_salted_differently() {
    let mut auth = LocalAuth::new();
    auth.register_user("ana", "1234").unwrap();
    auth.register_user("bob", "1234").unwrap();
    assert_ne!(auth.users[0].pin_phc, auth.users[1].pin_phc);
    assert!(auth.verify_login("bob", "1234").is_ok());
}

#[test]
fn taken_name_is_refused() {
    let mut auth = registry(&["ana"]);
    assert!(matches!(auth.register_user("ana", "9999"), Err(AuthError::AlreadyExists)));
    assert_eq!(auth.users.len(), 1);
    assert_eq!(auth.users[0].pin_phc, "hash-of-ana");
    assert!(matches!(
        auth.register_hashed("ana", "h".to_string(), "t".to_string()),
        Err(AuthError::AlreadyExists)
    ));
    assert!(auth.register_hashed("Ana", "h".to_string(), "t".to_string()).is_ok());
    assert_eq!(auth.list_users(), vec!["ana", "Ana"]);
    assert_eq!(auth.users[1].pin_phc, "h");
    assert_eq!(auth.users[1].created_at, "t");
}

#[test]
fn hash_that_is_no_hash_accepts_nothing() {
    let auth = registry(&["ana"]);
    assert!(matches!(auth.verify_login("ana", "hash-of-ana"), Err(AuthError::InvalidPin)));
    assert_eq!(auth.hash_of("ana"), Some("hash-of-ana".to_string()));
    assert_eq!(auth.hash_of("bob"), None);
}

#[test]
fn login_verdicts() {
    assert!(LocalAuth::login_verdict(Some(true)).is_ok());
    assert!(matches!(LocalAuth::login_verdict(Some(false)), Err(AuthError::InvalidPin)));
    assert!(matches!(LocalAuth::login_verdict(None), Err(AuthError::NotFound)));
}

#[test]
fn delete_removes_the_account_and_keeps_the_others() {
    let mut auth = registry(&["ana", "bob", "cara"]);
    assert!(auth.delete_user("bob").is_ok());
    assert_eq!(auth.list_users(), vec!["ana", "cara"]);
    assert_eq!(auth.users[1].pin_phc, "hash-of-cara");
    assert!(matches!(auth.delete_user("bob"), Err(AuthError::NotFound)));
    assert_eq!(auth.list_users(), vec!["ana", "cara"]);
    assert!(auth.delete_user("ana").is_ok());
    assert!(auth.delete_user("cara").is_ok());
    assert!(!auth.has_any_user());
    assert!(matches!(auth.delete_user("cara"), Err(AuthError::NotFound)));
}

#[test]
fn delete_removes_every_account_of_the_name() {
    let mut auth = registry(&["ana", "bob", "ana"]);
    assert!(auth.delete_user("ana").is_ok());
    assert_eq!(auth.list_users(), vec!["bob"]);
}

#[test]
fn registry_round_trips_through_its_file() {
    let mut auth = registry(&["ana", "bob"]);
    auth.register_user("cara", "0000").unwrap();
    let text = auth.save();
    let back = LocalAuth::load(Some(&text)).unwrap();
    assert_eq!(back.list_users(), vec!["ana", "bob", "cara"]);
    for (a, b) in back.users.iter().zip(auth.users.iter()) {
        assert_eq!(a.username, b.username);
        assert_eq!(a.pin_phc, b.pin_phc);
        assert_eq!(a.created_at, b.created_at);
    }
    assert!(back.verify_login("cara", "0000").is_ok());
    let copy = back.users[0].duplicate();
    assert_eq!(copy.username, "ana");
}

#[test]
fn missing_file_is_an_empty_registry() {
    let auth = LocalAuth::load(None).unwrap();
    assert!(!auth.has_any_user());
    let empty = LocalAuth::load(Some(r#"{"users": []}"#)).unwrap();
    assert!(!empty.has_any_user());
}

#[test]
fn corrupt_file_is_refused() {
    for text in [
        "",
        "garbage",
        "{}",
        r#"{"users": {}}"#,
        r#"{"users": [{"username": "ana"}]}"#,
        r#"{"users": [{"username": "ana", "pin_phc": 1, "created_at": "t"}]}"#,
        r#"{"users": ["ana"]}"#,
    ] {
        assert!(matches!(LocalAuth::load(Some(text)), Err(AuthError::Serde(_))));
    }
    assert!(decode_registry(&Json::Null).is_none());
    match encode_registry(&registry(&["ana"])) {
        Json::Object(ms) => {
            assert_eq!(ms.len(), 1);
            assert_eq!(ms[0].key, "users");
        }
        _ => panic!("registry is no object"),
    }
}

#[test]
fn auth_errors_in_words() {
    assert_eq!(AuthError::Io("denied".to_string()).message(), "I/O error: denied");
    assert_eq!(AuthError::Serde("eof".to_string()).message(), "Serialization error: eof");
    assert_eq!(AuthError::NotFound.message(), "User not found");
    assert_eq!(AuthError::AlreadyExists.message(), "User already exists");
    assert_eq!(AuthError::InvalidPin.message(), "Invalid PIN");
    assert_eq!(AuthError::NoConfigDir.message(), "No config dir");
}

#[test]
fn free_name_is_registered_whatever_the_pin() {
    let mut auth = LocalAuth::new();
    for (name, pin) in [("empty", ""), ("short", "1"), ("words", "correct horse • battery"), ("long", &"9".repeat(4096))] {
        assert!(auth.register_user(name, pin).is_ok());
        assert!(auth.verify_login(name, pin).is_ok());
    }
    assert_eq!(auth.list_users(), vec!["empty", "short", "words", "long"]);
    assert!(matches!(auth.verify_login("empty", "1"), Err(AuthError::InvalidPin)));
    assert!(matches!(auth.verify_login("short", ""), Err(AuthError::InvalidPin)));
}
