//! The closed set of failures that the cores and the gateway report.

use vstd::prelude::*;

verus! {

/// A failure reported by the persistence gateway.
#[derive(Clone, Copy, Debug, PartialEq, Eq, Structural)]
pub enum StoreError {
    /// The insert would have broken a uniqueness rule of the store: a
    /// username or a comment id that is taken.
    UniqueViolation,
    /// The store could not be reached or refused the operation.
    IoError,
}

/// A failure reported by one of the cores.
#[derive(Clone, Copy, Debug, PartialEq, Eq, Structural)]
pub enum ServiceError {
    /// A lookup by id or username found nothing.
    NotFound,
    /// The username is already taken.
    UniqueViolation,
    /// The hashing primitive failed to derive or to check a credential.
    HashingError,
    /// Any other failure of the store.
    PersistenceError,
    /// Kept for input constraints; no operation reports it.
    ValidationError,
}

impl ServiceError {
    /// The failure that the identity core reports when the insert of a user
    /// fails.
    pub open spec fn of_store(e: StoreError) -> ServiceError {
        match e {
            StoreError::UniqueViolation => ServiceError::UniqueViolation,
            StoreError::IoError => ServiceError::PersistenceError,
        }
    }

    /// The failure that the identity core reports when the insert of a user
    /// fails: a taken username stays a `UniqueViolation`.
    pub fn from_store(e: StoreError) -> (r: ServiceError)
        ensures
            r == ServiceError::of_store(e),
    {
        match e {
            StoreError::UniqueViolation => ServiceError::UniqueViolation,
            StoreError::IoError => ServiceError::PersistenceError,
        }
    }

    /// The HTTP status that stands for each kind of failure.
    pub open spec fn status_of(self) -> u16 {
        match self {
            ServiceError::NotFound => 404,
            ServiceError::UniqueViolation => 409,
            ServiceError::ValidationError => 422,
            ServiceError::HashingError => 500,
            ServiceError::PersistenceError => 503,
        }
    }

    /// The HTTP status under which the transport reports this failure.
    pub fn status_code(&self) -> (code: u16)
        ensures
            code == self.status_of(),
            400 <= code < 600,
    {
        match self {
            ServiceError::NotFound => 404,
            ServiceError::UniqueViolation => 409,
            ServiceError::ValidationError => 422,
            ServiceError::HashingError => 500,
            ServiceError::PersistenceError => 503,
        }
    }

    /// Two kinds of failure never share a status.
    pub proof fn status_is_distinct(a: ServiceError, b: ServiceError)
        ensures
            a.status_of() == b.status_of() <==> a == b,
    {
    }
}

} // verus!
