//! The identity core: accounts, their credentials and the moderator flag.
//!
//! Every operation makes one call of the gateway. What is handed to the
//! gateway and what is made of its answer are functions of their own, so
//! that a store which is reached by other means than [`MemoryStore`] is
//! served by the same decisions. No operation checks who is asking.

use crate::clock::now_micros;
use crate::credential::{
    argon2_check, argon2_phc, checked_by_deriving, derived_hash, hashed_under, password_verdict,
};
use crate::error::{ServiceError, StoreError};
use crate::gateway::{count_reply_view, user_reply_view, users_reply_view, StoreState};
use crate::lookups::{
    lemma_found_user_has_id, lemma_inserted_user_is_found, lemma_rehashed_user_is_found,
};
use crate::memory::MemoryStore;
use crate::model::{
    profile_views, user_views, DbAddUser, DbAddUserView, NewUser, NewUserView, User, UserProfile,
    UserProfileView, UserView,
};
use vstd::prelude::*;

verus! {

/// The row to insert for a new user, given the salt and the instant.
pub open spec fn new_user_row_spec(new_user: NewUserView, salt: Seq<char>, now: i64) -> Result<
    DbAddUserView,
    ServiceError,
> {
    match derived_hash(new_user.password, salt) {
        Ok(hash) => Ok(
            DbAddUserView {
                username: new_user.username,
                password_hash: hash,
                is_moderator: new_user.is_moderator,
                created_at: now,
            },
        ),
        Err(e) => Err(e),
    }
}

/// What the core answers to the gateway's answer to `InsertUser`.
pub open spec fn created_user_spec(reply: Result<i32, StoreError>) -> Result<i32, ServiceError> {
    match reply {
        Ok(id) => Ok(id),
        Err(e) => Err(ServiceError::of_store(e)),
    }
}

/// What the core answers to a lookup of one user: the profile of the row,
/// `NotFound` where there is none.
pub open spec fn found_profile_spec(reply: Result<Option<UserView>, StoreError>) -> Result<
    UserProfileView,
    ServiceError,
> {
    match reply {
        Ok(Some(u)) => Ok(u.profile()),
        Ok(None) => Err(ServiceError::NotFound),
        Err(_) => Err(ServiceError::PersistenceError),
    }
}

/// What the core answers to a password attempt, given the lookup of the
/// user: a user that could not be fetched is a `PersistenceError`.
pub open spec fn checked_password_spec(
    reply: Result<Option<UserView>, StoreError>,
    attempt: Seq<char>,
) -> Result<bool, ServiceError> {
    match reply {
        Ok(Some(u)) => password_verdict(u.password_hash, attempt),
        _ => Err(ServiceError::PersistenceError),
    }
}

/// Whether a lookup found a user.
pub open spec fn existence_spec(reply: Result<Option<UserView>, StoreError>) -> Result<
    bool,
    ServiceError,
> {
    match reply {
        Ok(found) => Ok(found is Some),
        Err(_) => Err(ServiceError::PersistenceError),
    }
}

/// What the core answers to a count of affected users: the id where a row
/// was affected, `NotFound` where none was.
pub open spec fn changed_user_spec(id: i32, reply: Result<nat, StoreError>) -> Result<
    i32,
    ServiceError,
> {
    match reply {
        Ok(n) => if n == 0 {
            Err(ServiceError::NotFound)
        } else {
            Ok(id)
        },
        Err(_) => Err(ServiceError::PersistenceError),
    }
}

/// The profile of a row.
pub open spec fn profile_of() -> spec_fn(UserView) -> UserProfileView {
    |u: UserView| u.profile()
}

/// What the core answers to a lookup of several users: the profile of each
/// row, in the order of the rows.
pub open spec fn listed_profiles_spec(reply: Result<Seq<UserView>, StoreError>) -> Result<
    Seq<UserProfileView>,
    ServiceError,
> {
    match reply {
        Ok(rows) => Ok(rows.map_values(profile_of())),
        Err(_) => Err(ServiceError::PersistenceError),
    }
}

/// The state of a user whose password was just set under `salt`: an attempt
/// is accepted exactly if it derives, under that salt, to the credential
/// that the password derives to. So the password itself is accepted, and
/// another is refused unless it collides with it.
pub open spec fn password_is_set(s: StoreState, id: i32, password: Seq<char>, salt: Seq<char>) -> bool {
    forall|attempt: Seq<char>| #[trigger]
        verify_user_password_spec(s, id, attempt) == Ok::<bool, ServiceError>(
            derived_hash(attempt, salt) == derived_hash(password, salt),
        )
}

/// `CreateUser`, given the salt and the instant.
pub open spec fn create_user_spec(s: StoreState, new_user: NewUserView, salt: Seq<char>, now: i64) -> (
    StoreState,
    Result<i32, ServiceError>,
) {
    match new_user_row_spec(new_user, salt, now) {
        Ok(row) => (s.insert_user(row).0, created_user_spec(s.insert_user(row).1)),
        Err(e) => (s, Err(e)),
    }
}

/// `GetUserById`.
pub open spec fn get_user_by_id_spec(s: StoreState, id: i32) -> Result<
    UserProfileView,
    ServiceError,
> {
    found_profile_spec(s.select_user_by_id(id))
}

/// `GetUserByUsername`.
pub open spec fn get_user_by_username_spec(s: StoreState, username: Seq<char>) -> Result<
    UserProfileView,
    ServiceError,
> {
    found_profile_spec(s.select_user_by_username(username))
}

/// `VerifyPassword`.
pub open spec fn verify_user_password_spec(s: StoreState, id: i32, attempt: Seq<char>) -> Result<
    bool,
    ServiceError,
> {
    checked_password_spec(s.select_user_by_id(id), attempt)
}

/// `UsernameExists`.
pub open spec fn username_exists_spec(s: StoreState, username: Seq<char>) -> Result<
    bool,
    ServiceError,
> {
    existence_spec(s.select_user_by_username(username))
}

/// `GrantModeratorStatus` and `RevokeModeratorStatus`.
pub open spec fn set_mod_status_spec(s: StoreState, id: i32, flag: bool) -> (
    StoreState,
    Result<i32, ServiceError>,
) {
    (
        s.update_user_moderator_flag(id, flag).0,
        changed_user_spec(id, s.update_user_moderator_flag(id, flag).1),
    )
}

/// `UpdatePassword`, given the salt.
pub open spec fn update_user_password_spec(
    s: StoreState,
    id: i32,
    password: Seq<char>,
    salt: Seq<char>,
) -> (StoreState, Result<i32, ServiceError>) {
    match derived_hash(password, salt) {
        Ok(hash) => (
            s.update_user_password_hash(id, hash).0,
            changed_user_spec(id, s.update_user_password_hash(id, hash).1),
        ),
        Err(e) => (s, Err(e)),
    }
}

/// `DeleteUser`.
pub open spec fn delete_user_spec(s: StoreState, id: i32) -> (StoreState, Result<i32, ServiceError>) {
    (s.delete_user_by_id(id).0, changed_user_spec(id, s.delete_user_by_id(id).1))
}

/// The value of a result that carries a row to insert.
pub open spec fn row_result_view(r: Result<DbAddUser, ServiceError>) -> Result<
    DbAddUserView,
    ServiceError,
> {
    match r {
        Ok(row) => Ok(row@),
        Err(e) => Err(e),
    }
}

/// The value of a result that carries a profile.
pub open spec fn profile_result_view(r: Result<UserProfile, ServiceError>) -> Result<
    UserProfileView,
    ServiceError,
> {
    match r {
        Ok(p) => Ok(p@),
        Err(e) => Err(e),
    }
}

/// The value of a result that carries a list of profiles.
pub open spec fn profiles_result_view(r: Result<Vec<UserProfile>, ServiceError>) -> Result<
    Seq<UserProfileView>,
    ServiceError,
> {
    match r {
        Ok(rows) => Ok(profile_views(rows@)),
        Err(e) => Err(e),
    }
}

/// Builds the row to insert for a new user under the given salt and
/// instant. Fails with `HashingError` exactly where the credential cannot
/// be derived.
pub fn new_user_row_with(new_user: &NewUser, salt: &str, now: i64) -> (r: Result<
    DbAddUser,
    ServiceError,
>)
    ensures
        row_result_view(r) == new_user_row_spec(new_user@, salt@, now),
        r matches Ok(row) ==> checked_by_deriving(row.password_hash@, salt@),
{
    match User::hash_password_with_salt(new_user.password.as_str(), salt) {
        Ok(hash) => Ok(
            DbAddUser {
                username: new_user.username.clone(),
                password_hash: hash,
                is_moderator: new_user.is_moderator,
                created_at: now,
            },
        ),
        Err(e) => Err(e),
    }
}

/// Builds the row to insert for a new user, under a salt drawn afresh and
/// at the present instant. Whatever salt and instant were taken, the result
/// is as that of [`new_user_row_with`] under them.
pub fn new_user_row(new_user: &NewUser) -> (r: Result<DbAddUser, ServiceError>)
    ensures
        exists|salt: Seq<char>, now: i64|
            row_result_view(r) == #[trigger] new_user_row_spec(new_user@, salt, now) && (r matches Ok(
                row,
            ) ==> checked_by_deriving(row.password_hash@, salt)),
{
    let now = now_micros();
    let hashed = User::hash_password(new_user.password.as_str());
    let ghost salt = choose|salt: Seq<char>| #[trigger]
        hashed_under(hashed, new_user.password@, salt) && salt.len() == 22;
    let r = match hashed {
        Ok(hash) => Ok(
            DbAddUser {
                username: new_user.username.clone(),
                password_hash: hash,
                is_moderator: new_user.is_moderator,
                created_at: now,
            },
        ),
        Err(e) => Err(e),
    };
    assert(row_result_view(r) == new_user_row_spec(new_user@, salt, now));
    r
}

/// Makes the answer of `CreateUser` from the gateway's answer.
pub fn created_user(reply: Result<i32, StoreError>) -> (r: Result<i32, ServiceError>)
    ensures
        r == created_user_spec(reply),
{
    match reply {
        Ok(id) => Ok(id),
        Err(e) => Err(ServiceError::from_store(e)),
    }
}

/// Makes the answer of a lookup from the gateway's answer. The credential
/// of the row stays behind.
pub fn found_profile(reply: Result<Option<User>, StoreError>) -> (r: Result<
    UserProfile,
    ServiceError,
>)
    ensures
        profile_result_view(r) == found_profile_spec(user_reply_view(reply)),
{
    match reply {
        Ok(Some(user)) => Ok(user.profile()),
        Ok(None) => Err(ServiceError::NotFound),
        Err(_) => Err(ServiceError::PersistenceError),
    }
}

/// Makes the answer of a lookup of several users from the gateway's answer:
/// the profile of each, in the same order. The credentials stay behind.
pub fn listed_profiles(reply: Result<Vec<User>, StoreError>) -> (r: Result<
    Vec<UserProfile>,
    ServiceError,
>)
    ensures
        profiles_result_view(r) == listed_profiles_spec(users_reply_view(reply)),
{
    match reply {
        Ok(rows) => {
            let mut profiles: Vec<UserProfile> = Vec::new();
            let mut i: usize = 0;
            while i < rows.len()
                invariant
                    i <= rows.len(),
                    profiles.len() == i,
                    forall|j: int|
                        0 <= j < i ==> (#[trigger] profiles@[j])@ == user_views(rows@)[j].profile(),
                decreases rows.len() - i,
            {
                profiles.push(rows[i].profile());
                i = i + 1;
            }
            assert(profile_views(profiles@) =~= user_views(rows@).map_values(profile_of()));
            Ok(profiles)
        },
        Err(_) => Err(ServiceError::PersistenceError),
    }
}

/// Makes the answer of `VerifyPassword` from the gateway's answer to the
/// lookup of the user.
pub fn checked_password(reply: Result<Option<User>, StoreError>, attempt: &str) -> (r: Result<
    bool,
    ServiceError,
>)
    ensures
        r == checked_password_spec(user_reply_view(reply), attempt@),
{
    match reply {
        Ok(Some(user)) => user.verify_password(attempt),
        _ => Err(ServiceError::PersistenceError),
    }
}

/// Makes the answer of `UsernameExists` from the gateway's answer.
pub fn existence(reply: Result<Option<User>, StoreError>) -> (r: Result<bool, ServiceError>)
    ensures
        r == existence_spec(user_reply_view(reply)),
{
    match reply {
        Ok(Some(_)) => Ok(true),
        Ok(None) => Ok(false),
        Err(_) => Err(ServiceError::PersistenceError),
    }
}

/// Makes the answer of an update or a delete under `id` from the count of
/// affected rows.
pub fn changed_user(id: i32, reply: Result<u64, StoreError>) -> (r: Result<i32, ServiceError>)
    ensures
        r == changed_user_spec(id, count_reply_view(reply)),
{
    match reply {
        Ok(n) => if n == 0 {
            Err(ServiceError::NotFound)
        } else {
            Ok(id)
        },
        Err(_) => Err(ServiceError::PersistenceError),
    }
}

/// `CreateUser` under the given salt and instant.
///
/// The user is stored with the store's next id, which is returned. The
/// outcome is exactly [`create_user_spec`]: `HashingError` where the
/// credential cannot be derived, `UniqueViolation` where the username is
/// taken, `PersistenceError` where the store fails otherwise. Right away
/// the password is accepted for the new user, and any other is refused
/// unless it derives to the same credential.
pub fn create_user_with(store: &mut MemoryStore, new_user: &NewUser, salt: &str, now: i64) -> (r:
    Result<i32, ServiceError>)
    requires
        old(store).wf(),
    ensures
        final(store).wf(),
        (final(store)@, r) == create_user_spec(old(store)@, new_user@, salt@, now),
        r matches Ok(id) ==> verify_user_password_spec(final(store)@, id, new_user.password@)
            == Ok::<bool, ServiceError>(true),
        r matches Ok(id) ==> password_is_set(final(store)@, id, new_user.password@, salt@),
{
    match new_user_row_with(new_user, salt, now) {
        Ok(row) => {
            let reply = store.insert_user(&row);
            proof {
                if reply is Ok {
                    lemma_inserted_user_is_found(old(store)@, row@);
                    lemma_password_is_set(store@, reply->Ok_0, new_user.password@, salt@);
                }
            }
            created_user(reply)
        },
        Err(e) => Err(e),
    }
}

/// `CreateUser`: under a salt drawn afresh and at the present instant.
///
/// Whatever salt and instant were taken, the outcome is as that of
/// [`create_user_with`] under them.
pub fn create_user(store: &mut MemoryStore, new_user: &NewUser) -> (r: Result<i32, ServiceError>)
    requires
        old(store).wf(),
    ensures
        final(store).wf(),
        exists|salt: Seq<char>, now: i64|
            (final(store)@, r) == #[trigger] create_user_spec(old(store)@, new_user@, salt, now)
                && (r matches Ok(id) ==> password_is_set(
                final(store)@,
                id,
                new_user.password@,
                salt,
            )),
        r matches Ok(id) ==> verify_user_password_spec(final(store)@, id, new_user.password@)
            == Ok::<bool, ServiceError>(true),
{
    let prepared = new_user_row(new_user);
    let ghost (salt, now) = choose|salt: Seq<char>, now: i64|
        row_result_view(prepared) == #[trigger] new_user_row_spec(new_user@, salt, now) && (
        prepared matches Ok(row) ==> checked_by_deriving(row.password_hash@, salt));
    match prepared {
        Ok(row) => {
            let reply = store.insert_user(&row);
            let r = created_user(reply);
            proof {
                if reply is Ok {
                    lemma_inserted_user_is_found(old(store)@, row@);
                    lemma_password_is_set(store@, reply->Ok_0, new_user.password@, salt);
                }
                assert((store@, r) == create_user_spec(old(store)@, new_user@, salt, now));
            }
            r
        },
        Err(e) => {
            assert((store@, Err::<i32, ServiceError>(e)) == create_user_spec(
                old(store)@,
                new_user@,
                salt,
                now,
            ));
            Err(e)
        },
    }
}

/// Where the user found under `id` holds the credential that `password`
/// derives to under `salt`, and that credential is checked by deriving
/// again, the password is set.
pub proof fn lemma_password_is_set(s: StoreState, id: i32, password: Seq<char>, salt: Seq<char>)
    requires
        s.select_user_by_id(id) matches Ok(Some(u)) && derived_hash(password, salt) == Ok::<
            Seq<char>,
            ServiceError,
        >(u.password_hash) && checked_by_deriving(u.password_hash, salt),
    ensures
        password_is_set(s, id, password, salt),
        verify_user_password_spec(s, id, password) == Ok::<bool, ServiceError>(true),
{
    let stored = s.select_user_by_id(id)->Ok_0->Some_0.password_hash;
    assert forall|attempt: Seq<char>| #[trigger]
        verify_user_password_spec(s, id, attempt) == Ok::<bool, ServiceError>(
            derived_hash(attempt, salt) == derived_hash(password, salt),
        ) by {
        assert(argon2_check(stored, attempt) == Some(
            argon2_phc(attempt, salt) == Some(stored),
        ));
    }
}

/// `GetUserById`: the profile of the user, `NotFound` where there is none,
/// `PersistenceError` where the store fails.
pub fn get_user_by_id(store: &MemoryStore, id: i32) -> (r: Result<UserProfile, ServiceError>)
    ensures
        profile_result_view(r) == get_user_by_id_spec(store@, id),
{
    found_profile(store.select_user_by_id(id))
}

/// `GetUserByUsername`: as [`get_user_by_id`], by exact username.
pub fn get_user_by_username(store: &MemoryStore, username: &str) -> (r: Result<
    UserProfile,
    ServiceError,
>)
    ensures
        profile_result_view(r) == get_user_by_username_spec(store@, username@),
{
    found_profile(store.select_user_by_username(username))
}

/// `VerifyPassword`: whether `attempt` is accepted for the user's stored
/// credential. `PersistenceError` where the user cannot be fetched,
/// `HashingError` where the stored credential cannot be checked.
pub fn verify_user_password(store: &MemoryStore, id: i32, attempt: &str) -> (r: Result<
    bool,
    ServiceError,
>)
    ensures
        r == verify_user_password_spec(store@, id, attempt@),
{
    checked_password(store.select_user_by_id(id), attempt)
}

/// `UsernameExists`.
pub fn username_exists(store: &MemoryStore, username: &str) -> (r: Result<bool, ServiceError>)
    ensures
        r == username_exists_spec(store@, username@),
{
    existence(store.select_user_by_username(username))
}

/// `GrantModeratorStatus`: sets the flag of the user, whatever it was.
pub fn grant_mod_status(store: &mut MemoryStore, id: i32) -> (r: Result<i32, ServiceError>)
    requires
        old(store).wf(),
    ensures
        final(store).wf(),
        (final(store)@, r) == set_mod_status_spec(old(store)@, id, true),
{
    changed_user(id, store.update_user_moderator_flag(id, true))
}

/// `RevokeModeratorStatus`: clears the flag of the user, whatever it was.
pub fn remove_mod_status(store: &mut MemoryStore, id: i32) -> (r: Result<i32, ServiceError>)
    requires
        old(store).wf(),
    ensures
        final(store).wf(),
        (final(store)@, r) == set_mod_status_spec(old(store)@, id, false),
{
    changed_user(id, store.update_user_moderator_flag(id, false))
}

/// `UpdatePassword` under the given salt.
///
/// The outcome is exactly [`update_user_password_spec`]. Where it succeeds,
/// right away the new password is accepted for the user, and any other is
/// refused unless it derives to the same credential.
pub fn update_user_password_with(store: &mut MemoryStore, id: i32, password: &str, salt: &str) -> (r:
    Result<i32, ServiceError>)
    requires
        old(store).wf(),
    ensures
        final(store).wf(),
        (final(store)@, r) == update_user_password_spec(old(store)@, id, password@, salt@),
        r is Ok ==> verify_user_password_spec(final(store)@, id, password@) == Ok::<
            bool,
            ServiceError,
        >(true),
        r is Ok ==> password_is_set(final(store)@, id, password@, salt@),
{
    match User::hash_password_with_salt(password, salt) {
        Ok(hash) => {
            let reply = store.update_user_password_hash(id, hash.as_str());
            let r = changed_user(id, reply);
            proof {
                if r is Ok {
                    lemma_rehashed_user_is_found(old(store)@, id, hash@, id);
                    lemma_found_user_has_id(old(store)@, id);
                    lemma_password_is_set(store@, id, password@, salt@);
                }
            }
            r
        },
        Err(e) => Err(e),
    }
}

/// `UpdatePassword`: under a salt drawn afresh, never the old one kept.
///
/// Whatever salt was drawn, the outcome is as that of
/// [`update_user_password_with`] under it.
pub fn update_user_password(store: &mut MemoryStore, id: i32, password: &str) -> (r: Result<
    i32,
    ServiceError,
>)
    requires
        old(store).wf(),
    ensures
        final(store).wf(),
        exists|salt: Seq<char>|
            (final(store)@, r) == #[trigger] update_user_password_spec(
                old(store)@,
                id,
                password@,
                salt,
            ) && (r is Ok ==> password_is_set(final(store)@, id, password@, salt)),
        r is Ok ==> verify_user_password_spec(final(store)@, id, password@) == Ok::<
            bool,
            ServiceError,
        >(true),
{
    let hashed = User::hash_password(password);
    let ghost salt = choose|salt: Seq<char>| #[trigger]
        hashed_under(hashed, password@, salt) && salt.len() == 22;
    match hashed {
        Ok(hash) => {
            let reply = store.update_user_password_hash(id, hash.as_str());
            let r = changed_user(id, reply);
            proof {
                if r is Ok {
                    lemma_rehashed_user_is_found(old(store)@, id, hash@, id);
                    lemma_found_user_has_id(old(store)@, id);
                    lemma_password_is_set(store@, id, password@, salt);
                }
                assert((store@, r) == update_user_password_spec(old(store)@, id, password@, salt));
            }
            r
        },
        Err(e) => {
            assert((store@, Err::<i32, ServiceError>(e)) == update_user_password_spec(
                old(store)@,
                id,
                password@,
                salt,
            ));
            Err(e)
        },
    }
}

/// `DeleteUser`: removes the user. Comments of the user stay.
pub fn delete_user(store: &mut MemoryStore, id: i32) -> (r: Result<i32, ServiceError>)
    requires
        old(store).wf(),
    ensures
        final(store).wf(),
        (final(store)@, r) == delete_user_spec(old(store)@, id),
{
    changed_user(id, store.delete_user_by_id(id))
}

} // verus!
