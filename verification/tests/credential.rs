use forum_core::error::ServiceError;
use forum_core::model::User;

fn user_with_hash(hash: &str) -> User {
    User {
        id: 7,
        username: "alice".to_string(),
        password_hash: hash.to_string(),
        is_moderator: false,
        created_at: 0,
    }
}

#[test]
fn a_fresh_hash_accepts_its_password_and_no_other() {
    let hash = User::hash_password("s3cr3t").unwrap();
    assert_ne!(hash, "s3cr3t");
    let user = user_with_hash(&hash);
    assert_eq!(user.verify_password("s3cr3t"), Ok(true));
    assert_eq!(user.verify_password("wrong"), Ok(false));
}

#[test]
fn a_hash_describes_itself() {
    let hash = User::hash_password_with_salt("s3cr3t", "c2FsdHNhbHRzYWx0c2FsdA").unwrap();
    assert!(hash.starts_with("$argon2id$v=19$m=19456,t=2,p=1$c2FsdHNhbHRzYWx0c2FsdA$"));
    assert_eq!(hash.len(), "$argon2id$v=19$m=19456,t=2,p=1$c2FsdHNhbHRzYWx0c2FsdA$".len() + 43);
    assert_eq!(user_with_hash(&hash).verify_password("s3cr3t"), Ok(true));
}

#[test]
fn the_same_salt_gives_the_same_hash() {
    let a = User::hash_password_with_salt("s3cr3t", "c2FsdHNhbHRzYWx0c2FsdA").unwrap();
    let b = User::hash_password_with_salt("s3cr3t", "c2FsdHNhbHRzYWx0c2FsdA").unwrap();
    let c = User::hash_password_with_salt("s3cr3t", "b3RoZXJvdGhlcm90aGVyMQ").unwrap();
    assert_eq!(a, b);
    assert_ne!(a, c);
}

#[test]
fn fresh_salts_differ() {
    let a = User::hash_password("s3cr3t").unwrap();
    let b = User::hash_password("s3cr3t").unwrap();
    assert_ne!(a, b);
}

#[test]
fn a_salt_that_cannot_be_read_is_a_hashing_error() {
    assert_eq!(
        User::hash_password_with_salt("s3cr3t", "no"),
        Err(ServiceError::HashingError)
    );
    assert_eq!(
        User::hash_password_with_salt("s3cr3t", "not a salt at all!"),
        Err(ServiceError::HashingError)
    );
}

#[test]
fn a_stored_hash_that_cannot_be_read_is_a_hashing_error() {
    assert_eq!(
        user_with_hash("plainly not a hash").verify_password("s3cr3t"),
        Err(ServiceError::HashingError)
    );
    assert_eq!(
        user_with_hash("").verify_password("s3cr3t"),
        Err(ServiceError::HashingError)
    );
}

#[test]
fn the_empty_password_is_a_password() {
    let hash = User::hash_password_with_salt("", "c2FsdHNhbHRzYWx0c2FsdA").unwrap();
    let user = user_with_hash(&hash);
    assert_eq!(user.verify_password(""), Ok(true));
    assert_eq!(user.verify_password(" "), Ok(false));
}
