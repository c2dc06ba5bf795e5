use vstd::prelude::*;

use crate::bytes::bytes_eq;
use crate::crypto::argon2_derive;
use crate::crypto::argon2_hash;
use crate::db::UserPasswordRow;
use crate::ids::fresh_uid;
use crate::ids::Uid;
use crate::services::Error;

verus! {

/// A stored password verifier: the Argon2 digest of the password with a salt
/// of its own, distinct from the salt that wraps the user key.  It gates
/// authentication and is never used as encryption-key material.
#[derive(Debug, PartialEq)]
pub struct UserPassword {
    pub id: Uid,
    pub user_key_id: Uid,
    pub hash: Vec<u8>,
    pub salt: Vec<u8>,
}

impl UserPassword {
    /// The verifier accepts a password exactly when the password's digest
    /// with the stored salt equals the stored hash.
    pub open spec fn accepts(&self, password: Seq<char>) -> bool {
        self.hash@ == argon2_hash(password, self.salt@)
    }

    /// Builds a verifier for the given password with a fresh random salt,
    /// bound to the user-key record it authenticates access to.
    pub fn new(user_key_id: &Uid, password: &str) -> (r: Result<Self, Error>)
        ensures
            r matches Ok(up) ==> {
                &&& up.user_key_id == *user_key_id
                &&& up.salt@.len() == 16
                &&& up.hash@ == argon2_hash(password@, up.salt@)
                &&& up.accepts(password@)
            },
            password@.len() <= 0x3FFFFFFF ==> r is Ok,
    {
        let salt = crate::crypto::generate_salt_bytes();
        let hash = match argon2_derive(password, salt.as_slice()) {
            Ok(h) => h,
            Err(_) => {
                return Err(Error::Internal);
            },
        };
        Ok(UserPassword { id: fresh_uid(), user_key_id: *user_key_id, hash, salt })
    }

    /// Recomputes the digest of the offered password with the stored salt
    /// and compares it byte for byte against the stored hash.
    pub fn verify(&self, password: &str) -> (r: Result<bool, Error>)
        ensures
            r matches Ok(b) ==> b == self.accepts(password@),
            (self.salt@.len() == 16 && password@.len() <= 0x3FFFFFFF) ==> r is Ok,
    {
        if self.salt.len() != 16 {
            return Err(Error::Internal);
        }
        let recomputed = match argon2_derive(password, self.salt.as_slice()) {
            Ok(h) => h,
            Err(_) => {
                return Err(Error::Internal);
            },
        };
        Ok(bytes_eq(self.hash.as_slice(), recomputed.as_slice()))
    }

    pub fn id(&self) -> (r: &Uid)
        ensures
            *r == self.id,
    {
        &self.id
    }

    pub fn user_key_id(&self) -> (r: &Uid)
        ensures
            *r == self.user_key_id,
    {
        &self.user_key_id
    }

    /// The storage row that persists this verifier for the given user.
    pub fn to_row(&self, user_id: &Uid) -> (r: UserPasswordRow)
        ensures
            r.id == self.id,
            r.user_id == *user_id,
            r.user_key_id == self.user_key_id,
            r.hash@ == self.hash@,
            r.salt@ == self.salt@,
    {
        UserPasswordRow {
            id: self.id,
            user_id: *user_id,
            user_key_id: self.user_key_id,
            hash: vstd::slice::slice_to_vec(self.hash.as_slice()),
            salt: vstd::slice::slice_to_vec(self.salt.as_slice()),
        }
    }

    /// The verifier a storage row holds.
    pub fn from_row(row: UserPasswordRow) -> (r: Self)
        ensures
            r.id == row.id,
            r.user_key_id == row.user_key_id,
            r.hash@ == row.hash@,
            r.salt@ == row.salt@,
    {
        UserPassword { id: row.id, user_key_id: row.user_key_id, hash: row.hash, salt: row.salt }
    }
}

/// A verifier built from a password accepts that password, and rejects every
/// password whose digest with the same salt differs from that password's.
pub proof fn lemma_password_verifier(up: UserPassword, pw: Seq<char>, other: Seq<char>)
    requires
        up.hash@ == argon2_hash(pw, up.salt@),
    ensures
        up.accepts(pw),
        argon2_hash(other, up.salt@) != argon2_hash(pw, up.salt@) ==> !up.accepts(other),
{
}

} // verus!
