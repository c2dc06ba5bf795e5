use vstd::prelude::*;

use crate::ids::Uid;

verus! {

/// Storage-layer failure kinds: a missing row, a violated uniqueness
/// invariant, or an underlying storage fault.
#[derive(Debug, PartialEq, Eq, Structural, Clone, Copy)]
pub enum Error {
    NotFound,
    TooMany,
    Internal,
}

/// A persisted user: identifier and unique username.
#[derive(Debug, Clone, PartialEq)]
pub struct UserRow {
    pub id: Uid,
    pub username: String,
}

/// A persisted wrapped user key: the user key encrypted under material
/// derived from the password with `salt`, using `nonce`.
#[derive(Debug, Clone, PartialEq)]
pub struct UserKeyRow {
    pub id: Uid,
    pub user_id: Uid,
    pub encrypted_key: Vec<u8>,
    pub nonce: Vec<u8>,
    pub salt: Vec<u8>,
}

/// A persisted password verifier: the Argon2 digest of the password with
/// `salt`, independently salted from the user-key wrapping.
#[derive(Debug, Clone, PartialEq)]
pub struct UserPasswordRow {
    pub id: Uid,
    pub user_id: Uid,
    pub user_key_id: Uid,
    pub hash: Vec<u8>,
    pub salt: Vec<u8>,
}

/// A persisted session; `expiration_time` is milliseconds since the Unix
/// epoch, or None for a session that never expires.
#[derive(Debug, Clone, PartialEq)]
pub struct UserSessionRow {
    pub id: Uid,
    pub user_id: Uid,
    pub expiration_time: Option<i64>,
}

/// A persisted note: its markdown encrypted under the note key with `nonce`;
/// `time_created` is assigned by storage and is milliseconds since the epoch.
#[derive(Debug, Clone, PartialEq)]
pub struct NoteRow {
    pub id: Uid,
    pub encrypted_markdown: Vec<u8>,
    pub nonce: Vec<u8>,
    pub time_created: Option<i64>,
}

/// A persisted note-key grant for one (note, user) pair: the note key
/// encrypted under the grantee's user key with `nonce`.
#[derive(Debug, Clone, PartialEq)]
pub struct NoteKeyRow {
    pub id: Uid,
    pub note_id: Uid,
    pub user_id: Uid,
    pub encrypted_key: Vec<u8>,
    pub nonce: Vec<u8>,
}

/// Maps the row count a deletion touched to its outcome: no row is NotFound,
/// more than one row breaks a uniqueness invariant and is TooMany.
pub fn delete_outcome(rows_affected: u64) -> (r: Result<(), Error>)
    ensures
        rows_affected == 0 ==> r == Err::<(), Error>(Error::NotFound),
        rows_affected == 1 ==> r == Ok::<(), Error>(()),
        rows_affected > 1 ==> r == Err::<(), Error>(Error::TooMany),
{
    if rows_affected < 1 {
        Err(Error::NotFound)
    } else if rows_affected > 1 {
        Err(Error::TooMany)
    } else {
        Ok(())
    }
}

} // verus!
