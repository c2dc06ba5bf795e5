use vstd::prelude::*;

use aes_gcm::aead::Aead;
use aes_gcm::AeadCore;
use aes_gcm::KeyInit;

verus! {

/// The AES-256-GCM ciphertext (encrypted body followed by its 16-byte tag)
/// that the given key, nonce and plaintext determine, with no associated data.
pub uninterp spec fn aead_cipher(key: Seq<u8>, nonce: Seq<u8>, plaintext: Seq<u8>) -> Seq<u8>;

/// The Argon2id digest, default parameters and 32-byte output, that the given
/// password and 16-byte raw salt determine.
pub uninterp spec fn argon2_hash(password: Seq<char>, salt: Seq<u8>) -> Seq<u8>;

/// Holds when `r` opens every ciphertext formed under (key, nonce) to the
/// plaintext it encrypts.
pub open spec fn aead_opens_to(
    key: Seq<u8>,
    nonce: Seq<u8>,
    ciphertext: Seq<u8>,
    r: Result<Vec<u8>, ()>,
) -> bool {
    forall|pt: Seq<u8>| ciphertext == aead_cipher(key, nonce, pt) ==> (r matches Ok(p) && p@ == pt)
}

/// Relies on aes_gcm::Aes256Gcm through aead::Aead::encrypt with no
/// associated data: the ciphertext is a function of key, nonce and plaintext
/// alone, is the plaintext's length plus the 16-byte tag, and encryption
/// succeeds whenever the plaintext is within the GCM length bound.
#[verifier::external_body]
pub(crate) fn aead_encrypt(key: &[u8], nonce: &[u8], plaintext: &[u8]) -> (r: Result<Vec<u8>, ()>)
    requires
        key@.len() == 32,
        nonce@.len() == 12,
    ensures
        r matches Ok(ct) ==> ct@ == aead_cipher(key@, nonce@, plaintext@) && ct@.len()
            == plaintext@.len() + 16,
        plaintext@.len() <= 0x1000000000 ==> r is Ok,
{
    let cipher = aes_gcm::Aes256Gcm::new(aes_gcm::Key::<aes_gcm::Aes256Gcm>::from_slice(key));
    cipher.encrypt(aes_gcm::Nonce::from_slice(nonce), plaintext).map_err(|_| ())
}

/// Relies on aes_gcm::Aes256Gcm through aead::Aead::decrypt with no
/// associated data: it inverts encryption under the same key and nonce, so a
/// successful decryption returns exactly the plaintext whose encryption is
/// the input, and any ciphertext formed under (key, nonce) decrypts.
#[verifier::external_body]
pub(crate) fn aead_decrypt(key: &[u8], nonce: &[u8], ciphertext: &[u8]) -> (r: Result<
    Vec<u8>,
    (),
>)
    requires
        key@.len() == 32,
        nonce@.len() == 12,
    ensures
        r matches Ok(p) ==> ciphertext@ == aead_cipher(key@, nonce@, p@) && p@.len() + 16
            == ciphertext@.len(),
        aead_opens_to(key@, nonce@, ciphertext@, r),
{
    let cipher = aes_gcm::Aes256Gcm::new(aes_gcm::Key::<aes_gcm::Aes256Gcm>::from_slice(key));
    cipher.decrypt(aes_gcm::Nonce::from_slice(nonce), ciphertext).map_err(|_| ())
}

/// Relies on aes_gcm::Aes256Gcm::generate_key with the operating system's
/// randomness: a fresh 32-byte key; nothing is assumed about its value.
#[verifier::external_body]
pub(crate) fn generate_key_bytes() -> (r: Vec<u8>)
    ensures
        r@.len() == 32,
{
    aes_gcm::Aes256Gcm::generate_key(&mut aes_gcm::aead::OsRng).to_vec()
}

/// Relies on aes_gcm::Aes256Gcm::generate_nonce with the operating system's
/// randomness: a fresh 12-byte nonce; nothing is assumed about its value.
#[verifier::external_body]
pub(crate) fn generate_nonce_bytes() -> (r: Vec<u8>)
    ensures
        r@.len() == 12,
{
    aes_gcm::Aes256Gcm::generate_nonce(&mut aes_gcm::aead::OsRng).to_vec()
}

/// Relies on password_hash::SaltString::generate with the operating system's
/// randomness: a fresh 16-byte salt; nothing is assumed about its value.
#[verifier::external_body]
pub(crate) fn generate_salt_bytes() -> (r: Vec<u8>)
    ensures
        r@.len() == 16,
{
    let salt = password_hash::SaltString::generate(&mut aes_gcm::aead::OsRng);
    let mut buf = [0u8; 16];
    let _ = salt.decode_b64(&mut buf);
    buf.to_vec()
}

/// Relies on argon2::Argon2::default().hash_password over the base64 form of
/// the given raw salt: the 32-byte digest is a function of password and salt
/// alone, and hashing succeeds for any password within Argon2's length bound.
#[verifier::external_body]
pub(crate) fn argon2_derive(password: &str, salt: &[u8]) -> (r: Result<Vec<u8>, ()>)
    requires
        salt@.len() == 16,
    ensures
        r matches Ok(h) ==> h@ == argon2_hash(password@, salt@) && h@.len() == 32,
        password@.len() <= 0x3FFFFFFF ==> r is Ok,
{
    let salt_string = match password_hash::SaltString::encode_b64(salt) {
        Ok(s) => s,
        Err(_) => return Err(()),
    };
    let hasher = argon2::Argon2::default();
    let hashed = match argon2::PasswordHasher::hash_password(&hasher, password.as_bytes(), &salt_string) {
        Ok(h) => h,
        Err(_) => return Err(()),
    };
    match hashed.hash {
        Some(out) => Ok(out.as_bytes().to_vec()),
        None => Err(()),
    }
}

} // verus!
