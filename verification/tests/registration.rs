use expense_tracker::authorization::auth::{create_user, hash_user_password, with_password_hash};
use expense_tracker::entities::user::CreateUser;
use expense_tracker::utils::Error;

fn payload() -> CreateUser {
    CreateUser { name: "Anna".to_string(), login: "anna".to_string(), password: "hunter42".to_string() }
}

#[test]
fn registration_stores_an_argon2_hash() {
    let u = create_user(payload()).unwrap();
    assert_eq!(u.name, "Anna");
    assert_eq!(u.login, "anna");
    assert_ne!(u.password, "hunter42");
    assert!(u.password.starts_with("$argon2id$v=19$m=19456,t=2,p=1$"));
}

#[test]
fn two_registrations_draw_different_salts() {
    let a = create_user(payload()).unwrap();
    let b = create_user(payload()).unwrap();
    assert_ne!(a.password, b.password);
}

#[test]
fn hashing_with_a_given_salt_is_deterministic() {
    let a = hash_user_password(payload(), "examplesaltvalue").unwrap();
    let b = hash_user_password(payload(), "examplesaltvalue").unwrap();
    assert_eq!(a.password, b.password);
    assert!(a.password.starts_with("$argon2id$v=19$m=19456,t=2,p=1$examplesaltvalue$"));
    let c = hash_user_password(payload(), "othersaltvalue00").unwrap();
    assert_ne!(a.password, c.password);
}

#[test]
fn a_refused_salt_is_invalid_data() {
    let r = hash_user_password(payload(), "ab");
    match r {
        Err(Error::InvalidData(m)) => assert_eq!(m, "невозможно сгенерировать пароль"),
        _ => panic!("expected InvalidData"),
    }
    let r = hash_user_password(payload(), "somesalt");
    assert!(matches!(r, Err(Error::InvalidData(_))));
}

#[test]
fn the_hash_replaces_the_password() {
    let u = with_password_hash(payload(), Some("H".to_string())).unwrap();
    assert_eq!(u.password, "H");
    assert_eq!(u.login, "anna");
    assert!(matches!(with_password_hash(payload(), None), Err(Error::InvalidData(_))));
}

#[test]
fn generated_salts_always_hash() {
    for _ in 0..3 {
        let u = create_user(CreateUser { name: "B".to_string(), login: "b".to_string(), password: String::new() });
        assert!(u.is_ok());
    }
}
