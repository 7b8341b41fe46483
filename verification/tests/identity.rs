use forum_core::error::{ServiceError, StoreError};
use forum_core::comments::{create_comment, get_comments};
use forum_core::identity::{
    changed_user, checked_password, create_user, create_user_with, created_user, delete_user,
    existence, found_profile, get_user_by_id, get_user_by_username, grant_mod_status,
    listed_profiles, new_user_row, new_user_row_with, remove_mod_status, update_user_password,
    update_user_password_with, username_exists, verify_user_password,
};
use forum_core::memory::MemoryStore;
use forum_core::model::{DbAddUser, NewComment, NewUser, User, UserProfile};

const SALT: &str = "c2FsdHNhbHRzYWx0c2FsdA";

fn new_user(username: &str, password: &str, is_moderator: bool) -> NewUser {
    NewUser {
        username: username.to_string(),
        password: password.to_string(),
        is_moderator,
    }
}

fn plain_row(username: &str) -> DbAddUser {
    DbAddUser {
        username: username.to_string(),
        password_hash: "unused".to_string(),
        is_moderator: false,
        created_at: 0,
    }
}

#[test]
fn test_create_user() {
    let mut store = MemoryStore::new();
    let created = create_user(&mut store, &new_user("testuser", "password123", false));
    assert!(created.is_ok());
}

#[test]
fn test_get_user_by_id() {
    let mut store = MemoryStore::new();
    create_user(&mut store, &new_user("testuser", "password123", false)).unwrap();
    let user_id = 1;
    let found = get_user_by_id(&store, user_id);
    assert!(found.is_ok());
}

#[test]
fn a_username_is_created_once() {
    let mut store = MemoryStore::new();
    assert_eq!(create_user(&mut store, &new_user("alice", "one", false)), Ok(1));
    assert_eq!(
        create_user(&mut store, &new_user("alice", "two", true)),
        Err(ServiceError::UniqueViolation)
    );
    assert_eq!(verify_user_password(&store, 1, "one"), Ok(true));
    assert_eq!(verify_user_password(&store, 1, "two"), Ok(false));
    assert!(!get_user_by_id(&store, 1).unwrap().is_moderator);
    assert_eq!(get_user_by_id(&store, 2), Err(ServiceError::NotFound));
}

#[test]
fn the_password_is_accepted_right_after_creation_and_after_a_change() {
    let mut store = MemoryStore::new();
    let id = create_user(&mut store, &new_user("bob", "first", false)).unwrap();
    assert_eq!(verify_user_password(&store, id, "first"), Ok(true));
    assert_eq!(verify_user_password(&store, id, "second"), Ok(false));
    let profile = get_user_by_id(&store, id).unwrap();
    assert_eq!(update_user_password(&mut store, id, "second"), Ok(id));
    assert_eq!(verify_user_password(&store, id, "second"), Ok(true));
    assert_eq!(verify_user_password(&store, id, "first"), Ok(false));
    assert_eq!(get_user_by_id(&store, id).unwrap(), profile);
}

#[test]
fn a_change_of_password_draws_a_new_salt() {
    let mut store = MemoryStore::new();
    let id = create_user(&mut store, &new_user("bob", "same", false)).unwrap();
    let before = store.select_user_by_id(id).unwrap().unwrap().password_hash;
    assert_eq!(update_user_password(&mut store, id, "same"), Ok(id));
    let after = store.select_user_by_id(id).unwrap().unwrap().password_hash;
    assert_ne!(before, after);
    assert_ne!(after, "same");
    assert_eq!(verify_user_password(&store, id, "same"), Ok(true));
}

#[test]
fn granting_and_revoking_show_in_the_profile_and_are_idempotent() {
    let mut store = MemoryStore::new();
    store.insert_user(&plain_row("carol")).unwrap();
    assert!(!get_user_by_id(&store, 1).unwrap().is_moderator);
    assert_eq!(grant_mod_status(&mut store, 1), Ok(1));
    let granted = get_user_by_id(&store, 1).unwrap();
    assert!(granted.is_moderator);
    assert_eq!(grant_mod_status(&mut store, 1), Ok(1));
    assert_eq!(get_user_by_id(&store, 1).unwrap(), granted);
    assert_eq!(remove_mod_status(&mut store, 1), Ok(1));
    let revoked = get_user_by_id(&store, 1).unwrap();
    assert!(!revoked.is_moderator);
    assert_eq!(remove_mod_status(&mut store, 1), Ok(1));
    assert_eq!(get_user_by_id(&store, 1).unwrap(), revoked);
    assert_eq!(
        revoked,
        UserProfile {
            id: 1,
            username: "carol".to_string(),
            is_moderator: false,
            created_at: 0,
        }
    );
}

#[test]
fn the_seventh_user_is_alice() {
    let mut store = MemoryStore::new();
    for name in ["a", "b", "c", "d", "e", "f"] {
        store.insert_user(&plain_row(name)).unwrap();
    }
    assert_eq!(create_user(&mut store, &new_user("alice", "s3cr3t", false)), Ok(7));
    assert_eq!(verify_user_password(&store, 7, "s3cr3t"), Ok(true));
    assert_eq!(verify_user_password(&store, 7, "wrong"), Ok(false));
    assert_eq!(grant_mod_status(&mut store, 7), Ok(7));
    assert!(get_user_by_id(&store, 7).unwrap().is_moderator);
}

#[test]
fn a_created_user_is_stored_as_given_under_the_given_salt_and_instant() {
    let mut store = MemoryStore::new();
    let id = create_user_with(&mut store, &new_user("dave", "pw", true), SALT, 1_234_567).unwrap();
    assert_eq!(id, 1);
    let row = store.select_user_by_id(id).unwrap().unwrap();
    assert_eq!(row.username, "dave");
    assert!(row.is_moderator);
    assert_eq!(row.created_at, 1_234_567);
    assert_eq!(row.password_hash, User::hash_password_with_salt("pw", SALT).unwrap());
    assert_eq!(
        get_user_by_username(&store, "dave"),
        Ok(UserProfile {
            id: 1,
            username: "dave".to_string(),
            is_moderator: true,
            created_at: 1_234_567,
        })
    );
}

#[test]
fn the_creation_instant_is_the_present() {
    let row = new_user_row(&new_user("erin", "pw", false)).unwrap();
    assert!(row.created_at > 1_600_000_000_000_000);
    assert!(row.created_at < 4_000_000_000_000_000);
    assert_eq!(row.username, "erin");
    assert!(!row.is_moderator);
    assert_ne!(row.password_hash, "pw");
}

#[test]
fn a_credential_that_cannot_be_derived_is_a_hashing_error_and_stores_nothing() {
    let mut store = MemoryStore::new();
    assert_eq!(
        create_user_with(&mut store, &new_user("frank", "pw", false), "!", 0),
        Err(ServiceError::HashingError)
    );
    assert_eq!(username_exists(&store, "frank"), Ok(false));
    assert_eq!(
        new_user_row_with(&new_user("frank", "pw", false), "!", 0),
        Err(ServiceError::HashingError)
    );
    store.insert_user(&plain_row("grace")).unwrap();
    assert_eq!(
        update_user_password_with(&mut store, 1, "pw", "!"),
        Err(ServiceError::HashingError)
    );
    assert_eq!(store.select_user_by_id(1).unwrap().unwrap().password_hash, "unused");
}

#[test]
fn a_stored_credential_that_cannot_be_read_is_a_hashing_error() {
    let mut store = MemoryStore::new();
    store.insert_user(&plain_row("grace")).unwrap();
    assert_eq!(verify_user_password(&store, 1, "pw"), Err(ServiceError::HashingError));
}

#[test]
fn lookups_by_username_are_exact() {
    let mut store = MemoryStore::new();
    store.insert_user(&plain_row("heidi")).unwrap();
    assert_eq!(username_exists(&store, "heidi"), Ok(true));
    assert_eq!(username_exists(&store, "Heidi"), Ok(false));
    assert_eq!(username_exists(&store, "heid"), Ok(false));
    assert_eq!(get_user_by_username(&store, "heidi").unwrap().id, 1);
    assert_eq!(get_user_by_username(&store, "nobody"), Err(ServiceError::NotFound));
}

#[test]
fn a_user_that_is_missing_is_not_found() {
    let mut store = MemoryStore::new();
    assert_eq!(get_user_by_id(&store, 1), Err(ServiceError::NotFound));
    assert_eq!(grant_mod_status(&mut store, 1), Err(ServiceError::NotFound));
    assert_eq!(remove_mod_status(&mut store, 1), Err(ServiceError::NotFound));
    assert_eq!(update_user_password_with(&mut store, 1, "pw", SALT), Err(ServiceError::NotFound));
    assert_eq!(delete_user(&mut store, 1), Err(ServiceError::NotFound));
    assert_eq!(verify_user_password(&store, 1, "pw"), Err(ServiceError::PersistenceError));
}

#[test]
fn the_comments_of_a_deleted_user_stay() {
    let mut store = MemoryStore::new();
    store.insert_user(&plain_row("ivan")).unwrap();
    let body = NewComment {
        user_id: 1,
        content: "still here".to_string(),
        parent_id: None,
    };
    let comment_id = create_comment(&mut store, 5, &body).unwrap();
    assert_eq!(delete_user(&mut store, 1), Ok(1));
    let listed = get_comments(&store, 5).unwrap();
    assert_eq!(listed.len(), 1);
    assert_eq!(listed[0].id, comment_id);
    assert_eq!(listed[0].user_id, 1);
}

#[test]
fn several_users_are_listed_without_their_credentials() {
    let rows = vec![
        User {
            id: 2,
            username: "b".to_string(),
            password_hash: "secret".to_string(),
            is_moderator: true,
            created_at: 5,
        },
        User {
            id: 1,
            username: "a".to_string(),
            password_hash: "secret".to_string(),
            is_moderator: false,
            created_at: 6,
        },
    ];
    assert_eq!(
        listed_profiles(Ok(rows)),
        Ok(vec![
            UserProfile {
                id: 2,
                username: "b".to_string(),
                is_moderator: true,
                created_at: 5,
            },
            UserProfile {
                id: 1,
                username: "a".to_string(),
                is_moderator: false,
                created_at: 6,
            },
        ])
    );
    assert_eq!(listed_profiles(Ok(vec![])), Ok(vec![]));
    assert_eq!(
        listed_profiles(Err(StoreError::IoError)),
        Err(ServiceError::PersistenceError)
    );
}

#[test]
fn a_deleted_user_is_gone() {
    let mut store = MemoryStore::new();
    store.insert_user(&plain_row("ivan")).unwrap();
    store.insert_user(&plain_row("judy")).unwrap();
    assert_eq!(delete_user(&mut store, 1), Ok(1));
    assert_eq!(get_user_by_id(&store, 1), Err(ServiceError::NotFound));
    assert_eq!(username_exists(&store, "ivan"), Ok(false));
    assert_eq!(get_user_by_id(&store, 2).unwrap().username, "judy");
    assert_eq!(delete_user(&mut store, 1), Err(ServiceError::NotFound));
}

#[test]
fn a_store_that_cannot_be_reached_is_a_persistence_error() {
    let mut store = MemoryStore::new();
    store.insert_user(&plain_row("kim")).unwrap();
    store.set_online(false);
    assert_eq!(
        create_user_with(&mut store, &new_user("leo", "pw", false), SALT, 0),
        Err(ServiceError::PersistenceError)
    );
    assert_eq!(get_user_by_id(&store, 1), Err(ServiceError::PersistenceError));
    assert_eq!(get_user_by_username(&store, "kim"), Err(ServiceError::PersistenceError));
    assert_eq!(verify_user_password(&store, 1, "pw"), Err(ServiceError::PersistenceError));
    assert_eq!(username_exists(&store, "kim"), Err(ServiceError::PersistenceError));
    assert_eq!(grant_mod_status(&mut store, 1), Err(ServiceError::PersistenceError));
    assert_eq!(remove_mod_status(&mut store, 1), Err(ServiceError::PersistenceError));
    assert_eq!(
        update_user_password_with(&mut store, 1, "pw", SALT),
        Err(ServiceError::PersistenceError)
    );
    assert_eq!(delete_user(&mut store, 1), Err(ServiceError::PersistenceError));
    store.set_online(true);
    assert_eq!(get_user_by_id(&store, 1).unwrap().username, "kim");
}

#[test]
fn the_answers_of_the_gateway_decide_the_answers_of_the_core() {
    let stored = User {
        id: 3,
        username: "mia".to_string(),
        password_hash: "unused".to_string(),
        is_moderator: true,
        created_at: 9,
    };
    let profile = UserProfile {
        id: 3,
        username: "mia".to_string(),
        is_moderator: true,
        created_at: 9,
    };
    assert_eq!(created_user(Ok(12)), Ok(12));
    assert_eq!(created_user(Err(StoreError::UniqueViolation)), Err(ServiceError::UniqueViolation));
    assert_eq!(created_user(Err(StoreError::IoError)), Err(ServiceError::PersistenceError));
    assert_eq!(found_profile(Ok(Some(stored.clone()))), Ok(profile));
    assert_eq!(found_profile(Ok(None)), Err(ServiceError::NotFound));
    assert_eq!(found_profile(Err(StoreError::IoError)), Err(ServiceError::PersistenceError));
    assert_eq!(existence(Ok(Some(stored.clone()))), Ok(true));
    assert_eq!(existence(Ok(None)), Ok(false));
    assert_eq!(existence(Err(StoreError::IoError)), Err(ServiceError::PersistenceError));
    assert_eq!(changed_user(3, Ok(1)), Ok(3));
    assert_eq!(changed_user(3, Ok(0)), Err(ServiceError::NotFound));
    assert_eq!(changed_user(3, Err(StoreError::IoError)), Err(ServiceError::PersistenceError));
    assert_eq!(
        changed_user(3, Err(StoreError::UniqueViolation)),
        Err(ServiceError::PersistenceError)
    );
    assert_eq!(checked_password(Ok(None), "pw"), Err(ServiceError::PersistenceError));
    assert_eq!(
        checked_password(Err(StoreError::IoError), "pw"),
        Err(ServiceError::PersistenceError)
    );
    assert_eq!(checked_password(Ok(Some(stored)), "pw"), Err(ServiceError::HashingError));
}
