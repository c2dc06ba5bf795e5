use vstd::prelude::*;

use vstd::string::StringSliceAdditionalSpecFns;
use vstd::utf8::encode_utf8;

use crate::crypto::aead_cipher;
use crate::crypto::aead_decrypt;
use crate::crypto::aead_encrypt;
use crate::crypto::generate_nonce_bytes;
use crate::db::NoteRow;
use crate::encoding::string_from_utf8;
use crate::ids::Uid;
use crate::services::Error;

verus! {

broadcast use vstd::utf8::encode_utf8_valid_utf8, vstd::utf8::encode_utf8_decode_utf8;

/// A note in the clear: its markdown and, once persisted, the time storage
/// assigned to it (milliseconds since the Unix epoch).
#[derive(Debug, PartialEq)]
pub struct DecryptedNote {
    pub id: Uid,
    pub markdown: String,
    pub time_created: Option<i64>,
}

/// A note as held in storage: markdown encrypted under the note key.
#[derive(Debug, PartialEq, Clone)]
pub struct EncryptedNote {
    pub id: Uid,
    pub encrypted_markdown: Vec<u8>,
    pub nonce: Vec<u8>,
    pub time_created: Option<i64>,
}

impl DecryptedNote {
    pub fn new(id: Uid, markdown: String) -> (r: Self)
        ensures
            r.id == id,
            r.markdown@ == markdown@,
            r.time_created is None,
    {
        DecryptedNote { id, markdown, time_created: None }
    }

    pub fn id(&self) -> (r: &Uid)
        ensures
            *r == self.id,
    {
        &self.id
    }

    /// The note's title, read from its markdown as `title_of` states it.
    pub fn title(&self) -> (r: Option<&str>)
        ensures
            r is Some <==> crate::utilities::notes::title_of(self.markdown@) is Some,
            r matches Some(t) ==> crate::utilities::notes::title_of(self.markdown@) == Some(t@),
    {
        crate::utilities::notes::get_title(self.markdown.as_str())
    }

    pub fn markdown(&self) -> (r: &str)
        ensures
            r@ == self.markdown@,
    {
        self.markdown.as_str()
    }

    pub fn set_markdown(&mut self, markdown: String)
        ensures
            final(self).id == old(self).id,
            final(self).markdown@ == markdown@,
            final(self).time_created == old(self).time_created,
    {
        self.markdown = markdown;
    }

    pub fn time_created(&self) -> (r: &Option<i64>)
        ensures
            *r == self.time_created,
    {
        &self.time_created
    }

    /// Seals the markdown under the note key, drawing a fresh random nonce
    /// for this call; re-saving unchanged content still draws a new nonce.
    pub fn encrypt(&self, note_key: &Vec<u8>) -> (r: Result<EncryptedNote, Error>)
        requires
            note_key@.len() == 32,
        ensures
            r matches Ok(en) ==> {
                &&& en.id == self.id
                &&& en.time_created == self.time_created
                &&& en.nonce@.len() == 12
                &&& en.encrypted_markdown@ == aead_cipher(
                    note_key@,
                    en.nonce@,
                    encode_utf8(self.markdown@),
                )
            },
            encode_utf8(self.markdown@).len() <= 0x1000000000 ==> r is Ok,
    {
        let nonce = generate_nonce_bytes();
        let ciphertext = match aead_encrypt(
            note_key.as_slice(),
            nonce.as_slice(),
            self.markdown.as_str().as_bytes(),
        ) {
            Ok(c) => c,
            Err(_) => {
                return Err(Error::EncryptionFailed);
            },
        };
        Ok(
            EncryptedNote {
                id: self.id,
                encrypted_markdown: ciphertext,
                nonce,
                time_created: self.time_created,
            },
        )
    }
}

/// Holds when `r` opens a sealed note to every text whose sealing under the
/// note key the note holds.
pub open spec fn opens_to_text(
    note: EncryptedNote,
    note_key: Seq<u8>,
    r: Result<DecryptedNote, Error>,
) -> bool {
    forall|text: Seq<char>|
        note.encrypted_markdown@ == aead_cipher(note_key, note.nonce@, encode_utf8(text)) ==> (
        r matches Ok(dn) && dn.markdown@ == text && dn.id == note.id && dn.time_created
            == note.time_created)
}

impl EncryptedNote {
    /// Opens the sealed markdown with the note key.  Whatever was sealed
    /// under this key and nonce comes back unchanged; a tag mismatch is
    /// DecryptionFailed and yields no partial text.
    pub fn decrypt(&self, note_key: &Vec<u8>) -> (r: Result<DecryptedNote, Error>)
        requires
            note_key@.len() == 32,
        ensures
            r matches Ok(dn) ==> {
                &&& dn.id == self.id
                &&& dn.time_created == self.time_created
                &&& self.encrypted_markdown@ == aead_cipher(
                    note_key@,
                    self.nonce@,
                    encode_utf8(dn.markdown@),
                )
            },
            self.nonce@.len() == 12 ==> opens_to_text(*self, note_key@, r),
            (self.nonce@.len() == 12 && (forall|b: Seq<u8>|
                self.encrypted_markdown@ != #[trigger] aead_cipher(note_key@, self.nonce@, b)))
                ==> r == Err::<DecryptedNote, Error>(Error::DecryptionFailed),
    {
        if self.nonce.len() != 12 {
            return Err(Error::DecryptionFailed);
        }
        let dec = aead_decrypt(
            note_key.as_slice(),
            self.nonce.as_slice(),
            self.encrypted_markdown.as_slice(),
        );
        let ghost dec_snapshot = dec;
        let plaintext = match dec {
            Ok(p) => p,
            Err(_) => {
                return Err(Error::DecryptionFailed);
            },
        };
        let ghost plaintext_view = plaintext@;
        let decoded = string_from_utf8(plaintext);
        let markdown = match decoded {
            Ok(s) => s,
            Err(_) => {
                proof {
                    assert forall|text: Seq<char>|
                        self.encrypted_markdown@ == aead_cipher(
                            note_key@,
                            self.nonce@,
                            encode_utf8(text),
                        ) implies false by {
                        assert(dec_snapshot matches Ok(p) && p@ == encode_utf8(text));
                        vstd::utf8::encode_utf8_valid_utf8(text);
                        assert(vstd::utf8::valid_utf8(plaintext_view));
                    }
                }
                return Err(Error::Internal);
            },
        };
        proof {
            assert forall|text: Seq<char>|
                self.encrypted_markdown@ == aead_cipher(
                    note_key@,
                    self.nonce@,
                    encode_utf8(text),
                ) implies markdown@ == text by {
                assert(dec_snapshot matches Ok(p) && p@ == encode_utf8(text));
                vstd::utf8::encode_utf8_decode_utf8(text);
                vstd::utf8::encode_utf8_decode_utf8(markdown@);
            }
        }
        Ok(DecryptedNote { id: self.id, markdown, time_created: self.time_created })
    }

    /// The storage row that persists this note; storage assigns the creation
    /// time, so the row carries none.
    pub fn to_row(&self) -> (r: NoteRow)
        ensures
            r.id == self.id,
            r.encrypted_markdown@ == self.encrypted_markdown@,
            r.nonce@ == self.nonce@,
            r.time_created is None,
    {
        NoteRow {
            id: self.id,
            encrypted_markdown: vstd::slice::slice_to_vec(self.encrypted_markdown.as_slice()),
            nonce: vstd::slice::slice_to_vec(self.nonce.as_slice()),
            time_created: None,
        }
    }

    /// The sealed note a storage row holds.
    pub fn from_row(row: NoteRow) -> (r: Self)
        ensures
            r.id == row.id,
            r.encrypted_markdown@ == row.encrypted_markdown@,
            r.nonce@ == row.nonce@,
            r.time_created == row.time_created,
    {
        EncryptedNote {
            id: row.id,
            encrypted_markdown: row.encrypted_markdown,
            nonce: row.nonce,
            time_created: row.time_created,
        }
    }
}

} // verus!
