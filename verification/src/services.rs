use vstd::prelude::*;

pub mod note_keys;
pub mod notes;
pub mod user_keys;
pub mod user_passwords;
pub mod user_sessions;
pub mod users;

verus! {

/// Service-layer failure kinds; storage and cryptographic failures become
/// one of these at this layer's boundary.
#[derive(Debug, PartialEq, Eq, Structural, Clone, Copy)]
pub enum Error {
    NotFound,
    EncryptionFailed,
    DecryptionFailed,
    Internal,
}

/// What each storage failure becomes at the service layer: a missing row
/// stays NotFound; a broken uniqueness invariant and a storage fault are
/// both internal.
pub open spec fn error_of_db(e: crate::db::Error) -> Error {
    match e {
        crate::db::Error::NotFound => Error::NotFound,
        crate::db::Error::TooMany => Error::Internal,
        crate::db::Error::Internal => Error::Internal,
    }
}

impl core::convert::From<crate::db::Error> for Error {
    fn from(e: crate::db::Error) -> (r: Self)
        ensures
            r == error_of_db(e),
    {
        match e {
            crate::db::Error::NotFound => Error::NotFound,
            crate::db::Error::TooMany => Error::Internal,
            crate::db::Error::Internal => Error::Internal,
        }
    }
}

impl vstd::std_specs::convert::FromSpecImpl<crate::db::Error> for Error {
    open spec fn obeys_from_spec() -> bool {
        true
    }

    open spec fn from_spec(e: crate::db::Error) -> Self {
        error_of_db(e)
    }
}

} // verus!
