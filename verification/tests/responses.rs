use forum_core::error::{ServiceError, StoreError};
use forum_core::response::{
    comment_created_body, comment_deleted_body, comment_updated_body, decimal_text,
    failure_body, moderator_granted_body, moderator_revoked_body, password_updated_body,
    user_created_body, user_deleted_body,
};

#[test]
fn ids_are_written_in_decimal() {
    assert_eq!(decimal_text(0), "0");
    assert_eq!(decimal_text(7), "7");
    assert_eq!(decimal_text(10), "10");
    assert_eq!(decimal_text(1_000_000), "1000000");
    assert_eq!(decimal_text(2_147_483_647), "2147483647");
    assert_eq!(decimal_text(-1), "-1");
    assert_eq!(decimal_text(-90), "-90");
    assert_eq!(decimal_text(-2_147_483_648), "-2147483648");
}

#[test]
fn user_bodies_name_the_id() {
    assert_eq!(user_created_body(7), "7");
    assert_eq!(moderator_granted_body(7), "7 is now a moderator");
    assert_eq!(moderator_revoked_body(7), "7 is no longer a moderator");
    assert_eq!(password_updated_body(123), "123 password has been updated");
    assert_eq!(user_deleted_body(40), "40 has been deleted");
}

#[test]
fn comment_bodies_name_the_hyphenated_id() {
    let id = 0xa1a2a3a4_b1b2_c1c2_d1d2_d3d4d5d6d7d8u128;
    assert_eq!(comment_created_body(id), "a1a2a3a4-b1b2-c1c2-d1d2-d3d4d5d6d7d8");
    assert_eq!(
        comment_updated_body(id, "new text"),
        "a1a2a3a4-b1b2-c1c2-d1d2-d3d4d5d6d7d8 -> new text"
    );
    assert_eq!(
        comment_deleted_body(id),
        "a1a2a3a4-b1b2-c1c2-d1d2-d3d4d5d6d7d8 was deleted"
    );
    assert_eq!(comment_created_body(0), "00000000-0000-0000-0000-000000000000");
    assert_eq!(comment_created_body(0xf), "00000000-0000-0000-0000-00000000000f");
    assert_eq!(comment_created_body(u128::MAX), "ffffffff-ffff-ffff-ffff-ffffffffffff");
}

#[test]
fn each_failure_has_its_own_status_and_text() {
    let all = [
        ServiceError::NotFound,
        ServiceError::UniqueViolation,
        ServiceError::HashingError,
        ServiceError::PersistenceError,
        ServiceError::ValidationError,
    ];
    assert_eq!(ServiceError::NotFound.status_code(), 404);
    assert_eq!(ServiceError::UniqueViolation.status_code(), 409);
    assert_eq!(ServiceError::ValidationError.status_code(), 422);
    assert_eq!(ServiceError::HashingError.status_code(), 500);
    assert_eq!(ServiceError::PersistenceError.status_code(), 503);
    for a in all {
        for b in all {
            assert_eq!(a.status_code() == b.status_code(), a == b);
            assert_eq!(failure_body(a) == failure_body(b), a == b);
        }
    }
    assert_eq!(failure_body(ServiceError::NotFound), "not found");
    assert_eq!(failure_body(ServiceError::UniqueViolation), "username already taken");
}

#[test]
fn a_failure_of_a_user_insert_keeps_its_kind() {
    assert_eq!(
        ServiceError::from_store(StoreError::UniqueViolation),
        ServiceError::UniqueViolation
    );
    assert_eq!(ServiceError::from_store(StoreError::IoError), ServiceError::PersistenceError);
}
