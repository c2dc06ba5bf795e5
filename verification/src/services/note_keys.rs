use vstd::prelude::*;

use crate::crypto::aead_cipher;
use crate::crypto::aead_decrypt;
use crate::crypto::aead_encrypt;
use crate::crypto::generate_key_bytes;
use crate::crypto::generate_nonce_bytes;
use crate::db::NoteKeyRow;
use crate::ids::fresh_uid;
use crate::ids::Uid;
use crate::services::Error;

verus! {

/// A decrypted per-note symmetric key.  It is generated once, at the note's
/// first save, and never rotated; it is persisted only inside grants, each
/// wrapped under one grantee's user key.
#[derive(Debug, PartialEq)]
pub struct DecryptedNoteKey {
    pub id: Uid,
    pub key: Vec<u8>,
}

/// A note-key grant as held in storage: the note key encrypted under the
/// grantee's user key.
#[derive(Debug, PartialEq, Clone)]
pub struct EncryptedNoteKey {
    pub id: Uid,
    pub encrypted_key: Vec<u8>,
    pub nonce: Vec<u8>,
}

/// Pairs a grant with the note it opens.
pub struct NoteKeyLink {
    pub note_id: Uid,
    pub note_key: EncryptedNoteKey,
}

impl DecryptedNoteKey {
    /// A well-formed note key holds 256 bits in 32 bytes.
    pub open spec fn wf(&self) -> bool {
        self.key@.len() == 32
    }

    /// Generates a fresh random note key under a fresh identifier.
    pub fn new() -> (r: Self)
        ensures
            r.wf(),
    {
        DecryptedNoteKey { id: fresh_uid(), key: generate_key_bytes() }
    }

    pub fn key(&self) -> (r: &Vec<u8>)
        ensures
            r@ == self.key@,
    {
        &self.key
    }

    /// Wraps this note key under a grantee's user key with a fresh random
    /// nonce.  Wrapping a 32-byte key never exceeds the cipher's length
    /// bound, so it always succeeds.
    pub fn encrypt(&self, user_key: &Vec<u8>) -> (r: Result<EncryptedNoteKey, Error>)
        requires
            user_key@.len() == 32,
            self.wf(),
        ensures
            r matches Ok(ek) ==> {
                &&& ek.id == self.id
                &&& ek.nonce@.len() == 12
                &&& ek.encrypted_key@ == aead_cipher(user_key@, ek.nonce@, self.key@)
            },
            r is Ok,
    {
        let nonce = generate_nonce_bytes();
        let ciphertext = match aead_encrypt(
            user_key.as_slice(),
            nonce.as_slice(),
            self.key.as_slice(),
        ) {
            Ok(c) => c,
            Err(_) => {
                return Err(Error::EncryptionFailed);
            },
        };
        Ok(EncryptedNoteKey { id: self.id, encrypted_key: ciphertext, nonce })
    }
}

/// Holds when `r` unwraps, from a grant, every 256-bit note key whose
/// wrapping under the user key the grant holds.
pub open spec fn unwraps_note_key(
    grant: EncryptedNoteKey,
    user_key: Seq<u8>,
    r: Result<DecryptedNoteKey, Error>,
) -> bool {
    forall|k: Seq<u8>|
        (k.len() == 32 && grant.encrypted_key@ == aead_cipher(user_key, grant.nonce@, k)) ==> (
        r matches Ok(dk) && dk.key@ == k && dk.id == grant.id)
}

impl EncryptedNoteKey {
    /// Unwraps the note key with the grantee's user key.  Every grant formed
    /// by wrapping a note key under this user key opens to that same note
    /// key; an integrity failure is DecryptionFailed.
    pub fn decrypt(&self, user_key: &Vec<u8>) -> (r: Result<DecryptedNoteKey, Error>)
        requires
            user_key@.len() == 32,
        ensures
            r matches Ok(dk) ==> {
                &&& dk.id == self.id
                &&& dk.wf()
                &&& self.encrypted_key@ == aead_cipher(user_key@, self.nonce@, dk.key@)
            },
            self.nonce@.len() == 12 ==> unwraps_note_key(*self, user_key@, r),
            (self.nonce@.len() == 12 && (forall|k: Seq<u8>|
                k.len() == 32 ==> self.encrypted_key@ != #[trigger] aead_cipher(
                    user_key@,
                    self.nonce@,
                    k,
                ))) ==> r == Err::<DecryptedNoteKey, Error>(Error::DecryptionFailed),
    {
        if self.nonce.len() != 12 {
            return Err(Error::DecryptionFailed);
        }
        let plaintext = match aead_decrypt(
            user_key.as_slice(),
            self.nonce.as_slice(),
            self.encrypted_key.as_slice(),
        ) {
            Ok(p) => p,
            Err(_) => {
                return Err(Error::DecryptionFailed);
            },
        };
        if plaintext.len() != 32 {
            return Err(Error::DecryptionFailed);
        }
        Ok(DecryptedNoteKey { id: self.id, key: plaintext })
    }

    /// The storage row that persists this grant for one (note, user) pair.
    pub fn to_row(&self, note_id: &Uid, user_id: &Uid) -> (r: NoteKeyRow)
        ensures
            r.id == self.id,
            r.note_id == *note_id,
            r.user_id == *user_id,
            r.encrypted_key@ == self.encrypted_key@,
            r.nonce@ == self.nonce@,
    {
        NoteKeyRow {
            id: self.id,
            note_id: *note_id,
            user_id: *user_id,
            encrypted_key: vstd::slice::slice_to_vec(self.encrypted_key.as_slice()),
            nonce: vstd::slice::slice_to_vec(self.nonce.as_slice()),
        }
    }

    /// The grant a storage row holds.
    pub fn from_row(row: NoteKeyRow) -> (r: Self)
        ensures
            r.id == row.id,
            r.encrypted_key@ == row.encrypted_key@,
            r.nonce@ == row.nonce@,
    {
        EncryptedNoteKey { id: row.id, encrypted_key: row.encrypted_key, nonce: row.nonce }
    }
}

/// Turns the grant rows a search returned into note links, in order.
pub fn links_from_rows(rows: &Vec<NoteKeyRow>) -> (r: Vec<NoteKeyLink>)
    ensures
        r@.len() == rows@.len(),
        forall|i: int|
            0 <= i < rows@.len() ==> {
                &&& #[trigger] r@[i].note_id == rows@[i].note_id
                &&& r@[i].note_key.id == rows@[i].id
                &&& r@[i].note_key.encrypted_key@ == rows@[i].encrypted_key@
                &&& r@[i].note_key.nonce@ == rows@[i].nonce@
            },
{
    let mut out: Vec<NoteKeyLink> = Vec::new();
    let n = rows.len();
    let mut i: usize = 0;
    while i < n
        invariant
            n == rows@.len(),
            i <= n,
            out@.len() == i,
            forall|j: int|
                0 <= j < i ==> {
                    &&& #[trigger] out@[j].note_id == rows@[j].note_id
                    &&& out@[j].note_key.id == rows@[j].id
                    &&& out@[j].note_key.encrypted_key@ == rows@[j].encrypted_key@
                    &&& out@[j].note_key.nonce@ == rows@[j].nonce@
                },
        decreases n - i,
    {
        let row = &rows[i];
        out.push(
            NoteKeyLink {
                note_id: row.note_id,
                note_key: EncryptedNoteKey {
                    id: row.id,
                    encrypted_key: vstd::slice::slice_to_vec(row.encrypted_key.as_slice()),
                    nonce: vstd::slice::slice_to_vec(row.nonce.as_slice()),
                },
            },
        );
        i += 1;
    }
    out
}

} // verus!
