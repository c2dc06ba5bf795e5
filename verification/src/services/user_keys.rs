use vstd::prelude::*;

use crate::crypto::aead_cipher;
use crate::crypto::aead_decrypt;
use crate::crypto::aead_encrypt;
use crate::crypto::argon2_derive;
use crate::crypto::argon2_hash;
use crate::crypto::generate_key_bytes;
use crate::crypto::generate_nonce_bytes;
use crate::crypto::generate_salt_bytes;
use crate::db::UserKeyRow;
use crate::ids::fresh_uid;
use crate::ids::Uid;
use crate::services::Error;

verus! {

/// A decrypted per-user symmetric key.  It is generated once at signup,
/// never rotated, and is persisted only in wrapped form.
#[derive(Debug, PartialEq)]
pub struct UserKey {
    pub id: Uid,
    pub key: Vec<u8>,
}

impl UserKey {
    /// A well-formed user key holds 256 bits in 32 bytes.
    pub open spec fn wf(&self) -> bool {
        self.key@.len() == 32
    }

    /// Generates a fresh random user key under a fresh identifier,
    /// independent of any password.
    pub fn new() -> (r: Self)
        ensures
            r.wf(),
    {
        UserKey { id: fresh_uid(), key: generate_key_bytes() }
    }

    pub fn id(&self) -> (r: &Uid)
        ensures
            *r == self.id,
    {
        &self.id
    }

    pub fn key(&self) -> (r: &Vec<u8>)
        ensures
            r@ == self.key@,
    {
        &self.key
    }
}

/// Holds when `r` recovers, from a wrapped-key row, every 256-bit key whose
/// wrapping under the password-derived material the row holds.
pub open spec fn recovers_wrapped_key(
    row: UserKeyRow,
    password: Seq<char>,
    r: Result<UserKey, Error>,
) -> bool {
    forall|k: Seq<u8>|
        (k.len() == 32 && row.encrypted_key@ == aead_cipher(
            argon2_hash(password, row.salt@),
            row.nonce@,
            k,
        )) ==> (r matches Ok(uk) && uk.key@ == k && uk.id == row.id)
}

/// Wraps a user key for storage: derives an encryption key from the password
/// with a fresh random salt, then encrypts the raw user key under it with a
/// fresh random nonce.  The salt is drawn here and is distinct from any
/// password-verifier salt.
pub fn seal_with_password(user_id: &Uid, user_key: &UserKey, password: &str) -> (r: Result<
    UserKeyRow,
    Error,
>)
    requires
        user_key.wf(),
    ensures
        r matches Ok(row) ==> {
            &&& row.id == user_key.id
            &&& row.user_id == *user_id
            &&& row.salt@.len() == 16
            &&& row.nonce@.len() == 12
            &&& row.encrypted_key@ == aead_cipher(
                argon2_hash(password@, row.salt@),
                row.nonce@,
                user_key.key@,
            )
        },
        password@.len() <= 0x3FFFFFFF ==> r is Ok,
{
    let salt = generate_salt_bytes();
    let derived = match argon2_derive(password, salt.as_slice()) {
        Ok(d) => d,
        Err(_) => {
            return Err(Error::Internal);
        },
    };
    let nonce = generate_nonce_bytes();
    let ciphertext = match aead_encrypt(
        derived.as_slice(),
        nonce.as_slice(),
        user_key.key.as_slice(),
    ) {
        Ok(c) => c,
        Err(_) => {
            return Err(Error::EncryptionFailed);
        },
    };
    Ok(UserKeyRow { id: user_key.id, user_id: *user_id, encrypted_key: ciphertext, nonce, salt })
}

/// Unwraps a stored user key with the password: derives the encryption key
/// from the password and the row's salt, then decrypts with the row's nonce.
/// A failed integrity check is DecryptionFailed, which callers treat as a
/// wrong password.
pub fn recover_with_password(row: &UserKeyRow, password: &str) -> (r: Result<UserKey, Error>)
    ensures
        r matches Ok(uk) ==> {
            &&& uk.id == row.id
            &&& uk.wf()
            &&& row.salt@.len() == 16
            &&& row.encrypted_key@ == aead_cipher(
                argon2_hash(password@, row.salt@),
                row.nonce@,
                uk.key@,
            )
        },
        (row.salt@.len() == 16 && row.nonce@.len() == 12 && password@.len() <= 0x3FFFFFFF)
            ==> recovers_wrapped_key(*row, password@, r),
        (row.salt@.len() == 16 && row.nonce@.len() == 12 && password@.len() <= 0x3FFFFFFF && (
        forall|k: Seq<u8>|
            k.len() == 32 ==> row.encrypted_key@ != #[trigger] aead_cipher(
                argon2_hash(password@, row.salt@),
                row.nonce@,
                k,
            ))) ==> r == Err::<UserKey, Error>(Error::DecryptionFailed),
{
    if row.salt.len() != 16 || row.nonce.len() != 12 {
        return Err(Error::DecryptionFailed);
    }
    let derived = match argon2_derive(password, row.salt.as_slice()) {
        Ok(d) => d,
        Err(_) => {
            return Err(Error::Internal);
        },
    };
    let plaintext = match aead_decrypt(
        derived.as_slice(),
        row.nonce.as_slice(),
        row.encrypted_key.as_slice(),
    ) {
        Ok(p) => p,
        Err(_) => {
            return Err(Error::DecryptionFailed);
        },
    };
    if plaintext.len() != 32 {
        return Err(Error::DecryptionFailed);
    }
    Ok(UserKey { id: row.id, key: plaintext })
}

} // verus!
