//! Password credentials: Argon2id hashes in the PHC string format, which
//! carry their own salt and parameters, so that a stored hash is checked
//! without anything else being kept beside it.

use crate::error::ServiceError;
use crate::model::User;
use argon2::password_hash::rand_core::OsRng;
use argon2::password_hash::{PasswordHash, PasswordHasher, PasswordVerifier, SaltString};
use argon2::Argon2;
use vstd::prelude::*;

verus! {

/// The error type of the `password-hash` traits that `argon2` implements.
#[verifier::external_type_specification]
#[verifier::external_body]
pub struct ExPasswordHashError(argon2::password_hash::Error);

/// The PHC string that Argon2 with its default parameters derives from a
/// password and a B64 salt; `None` where it refuses the pair.
pub uninterp spec fn argon2_phc(password: Seq<char>, salt: Seq<char>) -> Option<Seq<char>>;

/// Whether a password matches a stored PHC string, as Argon2 decides it;
/// `None` where the stored string cannot be read or recomputed.
pub uninterp spec fn argon2_check(stored: Seq<char>, attempt: Seq<char>) -> Option<bool>;

/// `SaltString::generate` of `password-hash`, fed by `OsRng`: sixteen random
/// bytes in unpadded B64, which is twenty-two characters. Nothing else is
/// claimed of the salt.
#[verifier::external_body]
fn draw_salt() -> (salt: String)
    ensures
        salt@.len() == 22,
{
    SaltString::generate(&mut OsRng).as_str().to_string()
}

/// A stored credential is checked by deriving again: an attempt matches
/// exactly if it derives, under `salt`, to the stored string itself.
pub open spec fn checked_by_deriving(stored: Seq<char>, salt: Seq<char>) -> bool {
    forall|attempt: Seq<char>| #[trigger]
        argon2_check(stored, attempt) == Some(argon2_phc(attempt, salt) == Some(stored))
}

/// `Argon2::default().hash_password` on the password's bytes and the salt
/// read by `SaltString::from_b64`, written out as a PHC string. Claimed: the
/// outcome is a function of the two arguments; and of a string that comes
/// out, what the crate documents of `verify_password`: it derives again from
/// the attempt, under the salt and parameters that the string carries, and
/// compares. An attempt too long to derive from is answered "no" there.
#[verifier::external_body]
fn argon2_hash(password: &str, salt: &str) -> (r: Result<String, argon2::password_hash::Error>)
    ensures
        match r {
            Ok(h) => argon2_phc(password@, salt@) == Some(h@) && checked_by_deriving(h@, salt@),
            Err(_) => argon2_phc(password@, salt@) is None,
        },
{
    let salt = SaltString::from_b64(salt)?;
    let hash = Argon2::default().hash_password(password.as_bytes(), &salt)?;
    Ok(hash.to_string())
}

/// `Argon2::default().verify_password` on the attempt's bytes and the stored
/// string read by `PasswordHash::new`. Claimed: the outcome is a function of
/// the two arguments. The error `Password` of the crate is the answer "no";
/// every other error is a failure.
#[verifier::external_body]
fn argon2_verify(stored: &str, attempt: &str) -> (r: Result<bool, argon2::password_hash::Error>)
    ensures
        match r {
            Ok(b) => argon2_check(stored@, attempt@) == Some(b),
            Err(_) => argon2_check(stored@, attempt@) is None,
        },
{
    let parsed = PasswordHash::new(stored)?;
    match Argon2::default().verify_password(attempt.as_bytes(), &parsed) {
        Ok(()) => Ok(true),
        Err(argon2::password_hash::Error::Password) => Ok(false),
        Err(e) => Err(e),
    }
}

/// The credential derived from a password under a given salt.
pub open spec fn derived_hash(password: Seq<char>, salt: Seq<char>) -> Result<
    Seq<char>,
    ServiceError,
> {
    match argon2_phc(password, salt) {
        Some(h) => Ok(h),
        None => Err(ServiceError::HashingError),
    }
}

/// The verdict on an attempt against a stored credential.
pub open spec fn password_verdict(stored: Seq<char>, attempt: Seq<char>) -> Result<
    bool,
    ServiceError,
> {
    match argon2_check(stored, attempt) {
        Some(b) => Ok(b),
        None => Err(ServiceError::HashingError),
    }
}

/// An executable result holds the text that `expected` names, or the same
/// failure.
pub open spec fn text_result_is(
    r: Result<String, ServiceError>,
    expected: Result<Seq<char>, ServiceError>,
) -> bool {
    match r {
        Ok(s) => expected == Ok::<Seq<char>, ServiceError>(s@),
        Err(e) => expected == Err::<Seq<char>, ServiceError>(e),
    }
}

/// `r` is what deriving from `password` under `salt` gives, and a credential
/// in it is checked by deriving again under that salt.
pub open spec fn hashed_under(
    r: Result<String, ServiceError>,
    password: Seq<char>,
    salt: Seq<char>,
) -> bool {
    &&& text_result_is(r, derived_hash(password, salt))
    &&& r matches Ok(h) ==> checked_by_deriving(h@, salt)
}

impl User {
    /// Derives the credential for `password` under `salt`.
    ///
    /// The result is exactly [`derived_hash`]. A credential that comes out
    /// accepts the password it was derived from, and of the others exactly
    /// those that derive to the same credential under the same salt.
    pub fn hash_password_with_salt(password: &str, salt: &str) -> (r: Result<String, ServiceError>)
        ensures
            hashed_under(r, password@, salt@),
            r matches Ok(h) ==> password_verdict(h@, password@) == Ok::<bool, ServiceError>(true),
    {
        match argon2_hash(password, salt) {
            Ok(h) => Ok(h),
            Err(_) => Err(ServiceError::HashingError),
        }
    }

    /// Derives the credential for `password` under a salt drawn afresh.
    ///
    /// Whatever salt was drawn, the result is as that of
    /// [`User::hash_password_with_salt`] under it.
    pub fn hash_password(password: &str) -> (r: Result<String, ServiceError>)
        ensures
            exists|salt: Seq<char>| #[trigger] hashed_under(r, password@, salt) && salt.len() == 22,
            r matches Ok(h) ==> password_verdict(h@, password@) == Ok::<bool, ServiceError>(true),
    {
        let salt = draw_salt();
        let r = User::hash_password_with_salt(password, salt.as_str());
        assert(hashed_under(r, password@, salt@));
        r
    }

    /// Checks `attempt` against this user's stored credential.
    pub fn verify_password(&self, attempt: &str) -> (r: Result<bool, ServiceError>)
        ensures
            r == password_verdict(self.password_hash@, attempt@),
    {
        match argon2_verify(self.password_hash.as_str(), attempt) {
            Ok(b) => Ok(b),
            Err(_) => Err(ServiceError::HashingError),
        }
    }
}

} // verus!
