use vstd::prelude::*;

use vstd::utf8::encode_utf8;

use crate::crypto::aead_cipher;
use crate::crypto::argon2_hash;
use crate::ids::fresh_uid;
use crate::ids::Uid;
use crate::services::note_keys::DecryptedNoteKey;
use crate::services::note_keys::EncryptedNoteKey;
use crate::services::note_keys::NoteKeyLink;
use crate::services::notes::DecryptedNote;
use crate::services::notes::EncryptedNote;
use crate::services::user_keys::seal_with_password;
use crate::services::user_keys::recover_with_password;
use crate::services::user_keys::UserKey;
use crate::services::user_passwords::UserPassword;
use crate::services::user_sessions::UserSession;
use crate::services::users::User;
use crate::services::Error;
use crate::db::UserKeyRow;
use crate::db::UserPasswordRow;
use crate::tokens::TokenDecryptionError;
use crate::tokens::UserClaims;
use crate::utilities::notes::title_of;

verus! {

/// How the boundary answers a failed request, one variant per response kind;
/// every error a handler can meet maps to exactly one of these.
#[derive(Debug, PartialEq, Eq, Structural, Clone, Copy)]
pub enum ApiError {
    BadRequest,
    Unauthorized,
    Forbidden,
    NotFound,
    Internal,
}

/// A request to create a user.
pub struct CreateUserRequest {
    pub username: String,
}

/// A request to open a session; authentication is by username and password.
pub enum CreateUserSessionRequest {
    Password { username: String, password: String },
}

/// A request to save a note's markdown.
pub struct CreateOrUpdateNote {
    pub markdown: String,
}

/// A request to set or replace a user's password.
pub struct CreateOrUpdateUserPasswordRequest {
    pub password: String,
}

/// The bearer token a fresh session answers with.
pub struct UserSessionResponse {
    pub token: String,
}

/// The user part of a signup answer.
pub struct UserResponse {
    pub id: Uid,
    pub username: String,
}

/// What a signup answers: the new user and a bearer token for its first
/// session.
pub struct CreateUserResponse {
    pub user: UserResponse,
    pub session: UserSessionResponse,
}

/// What a login answers in its body; the token travels in a cookie.
pub struct CreateUserSessionResponse {
    pub id: Uid,
}

/// One entry of the note list: the note and its title, if it has one.
#[derive(Debug, PartialEq)]
pub struct GetNotesResource {
    pub id: Uid,
    pub title: Option<String>,
}

/// The note list a user may read.
#[derive(Debug, PartialEq)]
pub struct GetNotesResponse {
    pub data: Vec<GetNotesResource>,
}

/// A single note in the clear.
#[derive(Debug, PartialEq)]
pub struct GetNoteResponse {
    pub id: Uid,
    pub title: Option<String>,
    pub markdown: String,
}

/// Holds when a grant wraps the note key `k` for the holder of `user_key`.
pub open spec fn grant_wraps(grant: EncryptedNoteKey, user_key: Seq<u8>, k: Seq<u8>) -> bool {
    k.len() == 32 && grant.encrypted_key@ == aead_cipher(user_key, grant.nonce@, k)
}

/// Holds when a sealed note carries exactly `text` under the note key `k`.
pub open spec fn note_seals(note: EncryptedNote, k: Seq<u8>, text: Seq<char>) -> bool {
    note.encrypted_markdown@ == aead_cipher(k, note.nonce@, encode_utf8(text))
}

/// What a note lookup failure answers: a missing note is NotFound; anything
/// else is internal.
pub fn note_lookup_error(e: Error) -> (r: ApiError)
    ensures
        r == (if e == Error::NotFound {
            ApiError::NotFound
        } else {
            ApiError::Internal
        }),
{
    match e {
        Error::NotFound => ApiError::NotFound,
        _ => ApiError::Internal,
    }
}

/// What a grant lookup failure answers: a missing grant denies access and is
/// Forbidden, distinct from the note not existing; anything else is internal.
pub fn grant_lookup_error(e: Error) -> (r: ApiError)
    ensures
        r == (if e == Error::NotFound {
            ApiError::Forbidden
        } else {
            ApiError::Internal
        }),
{
    match e {
        Error::NotFound => ApiError::Forbidden,
        _ => ApiError::Internal,
    }
}

/// What a session deletion failure answers: deleting a session that is not
/// there is Forbidden; anything else is internal.
pub fn session_delete_error(e: Error) -> (r: ApiError)
    ensures
        r == (if e == Error::NotFound {
            ApiError::Forbidden
        } else {
            ApiError::Internal
        }),
{
    match e {
        Error::NotFound => ApiError::Forbidden,
        _ => ApiError::Internal,
    }
}

/// What a rejected bearer token answers: a token that did not open is
/// unauthenticated, a malformed claim is a bad request, the rest is internal.
pub fn token_error_status(e: TokenDecryptionError) -> (r: ApiError)
    ensures
        r == (match e {
            TokenDecryptionError::InvalidKey => ApiError::Unauthorized,
            TokenDecryptionError::InvalidClaim => ApiError::BadRequest,
            TokenDecryptionError::Internal => ApiError::Internal,
        }),
{
    match e {
        TokenDecryptionError::InvalidKey => ApiError::Unauthorized,
        TokenDecryptionError::InvalidClaim => ApiError::BadRequest,
        TokenDecryptionError::Internal => ApiError::Internal,
    }
}

/// Whether the request may act for the user named in its path: only the
/// user the claims authenticate.
pub fn authorize_user(path_user_id: &Uid, claims: &UserClaims) -> (r: Result<(), ApiError>)
    ensures
        r == (if *path_user_id == claims.user_id {
            Ok::<(), ApiError>(())
        } else {
            Err::<(), ApiError>(ApiError::Forbidden)
        }),
{
    if *path_user_id == claims.user_id {
        Ok(())
    } else {
        Err(ApiError::Forbidden)
    }
}

/// Whether a request may proceed on its session: the session must still be
/// in storage and valid at the given instant; a revoked or expired session,
/// or any failure to find it, is unauthenticated whatever the token said.
pub fn session_gate(lookup: Result<UserSession, Error>, now: i64) -> (r: Result<(), ApiError>)
    ensures
        r == (match lookup {
            Ok(session) => if session.valid_at(now) {
                Ok::<(), ApiError>(())
            } else {
                Err::<(), ApiError>(ApiError::Unauthorized)
            },
            Err(_) => Err::<(), ApiError>(ApiError::Unauthorized),
        }),
{
    match lookup {
        Ok(session) => {
            if session.is_valid_at(now) {
                Ok(())
            } else {
                Err(ApiError::Unauthorized)
            }
        },
        Err(_) => Err(ApiError::Unauthorized),
    }
}

/// Opens a note for a reader who holds a grant on it: unwraps the note key
/// from the grant with the reader's user key, then opens the note with it.
/// After the explicit checks that led here neither step should fail, so any
/// failure is internal.
pub fn open_note(note: &EncryptedNote, grant: &EncryptedNoteKey, user_key: &Vec<u8>) -> (r: Result<
    DecryptedNote,
    ApiError,
>)
    requires
        user_key@.len() == 32,
    ensures
        r matches Ok(dn) ==> {
            &&& dn.id == note.id
            &&& dn.time_created == note.time_created
            &&& exists|k: Seq<u8>|
                #[trigger] grant_wraps(*grant, user_key@, k) && note_seals(*note, k, dn.markdown@)
        },
        r matches Err(e) ==> e == ApiError::Internal,
        (grant.nonce@.len() == 12 && note.nonce@.len() == 12) ==> forall|k: Seq<u8>, text: Seq<char>|
            (#[trigger] grant_wraps(*grant, user_key@, k) && #[trigger] note_seals(*note, k, text))
                ==> (r matches Ok(dn) && dn.markdown@ == text),
{
    let key_dec = grant.decrypt(user_key);
    let key = match key_dec {
        Ok(k) => k,
        Err(_) => {
            return Err(ApiError::Internal);
        },
    };
    let note_dec = note.decrypt(&key.key);
    let dn = match note_dec {
        Ok(d) => d,
        Err(_) => {
            return Err(ApiError::Internal);
        },
    };
    proof {
        assert(grant_wraps(*grant, user_key@, key.key@));
    }
    Ok(dn)
}

/// Re-seals an existing note with new markdown: the note key stays the one
/// the grant wraps, and only the note's ciphertext and nonce change.  A
/// missing grant denies the update.
pub fn update_note(
    note: &EncryptedNote,
    grant_lookup: Result<EncryptedNoteKey, Error>,
    user_key: &Vec<u8>,
    markdown: String,
) -> (r: Result<EncryptedNote, ApiError>)
    requires
        user_key@.len() == 32,
    ensures
        grant_lookup matches Err(e) ==> r == Err::<EncryptedNote, ApiError>(
            if e == Error::NotFound {
                ApiError::Forbidden
            } else {
                ApiError::Internal
            },
        ),
        r matches Ok(en) ==> {
            &&& en.id == note.id
            &&& en.nonce@.len() == 12
            &&& grant_lookup matches Ok(g) && (exists|k: Seq<u8>|
                #[trigger] grant_wraps(g, user_key@, k) && note_seals(en, k, markdown@))
        },
        (grant_lookup is Ok && grant_lookup->Ok_0.nonce@.len() == 12 && note.nonce@.len() == 12
            && encode_utf8(markdown@).len() <= 0x1000000000) ==> forall|k: Seq<u8>, text: Seq<char>|
            (#[trigger] grant_wraps(grant_lookup->Ok_0, user_key@, k) && #[trigger] note_seals(
                *note,
                k,
                text,
            )) ==> r is Ok,
{
    let grant = match grant_lookup {
        Ok(g) => g,
        Err(e) => {
            return Err(grant_lookup_error(e));
        },
    };
    let key = match grant.decrypt(user_key) {
        Ok(k) => k,
        Err(_) => {
            return Err(ApiError::Internal);
        },
    };
    let mut dn = match note.decrypt(&key.key) {
        Ok(d) => d,
        Err(_) => {
            return Err(ApiError::Internal);
        },
    };
    dn.set_markdown(markdown);
    let en = match dn.encrypt(&key.key) {
        Ok(e) => e,
        Err(_) => {
            return Err(ApiError::Internal);
        },
    };
    proof {
        assert(grant_wraps(grant, user_key@, key.key@));
    }
    Ok(en)
}

/// Seals a brand-new note: draws a fresh note key, seals the markdown under
/// it, and wraps the key for the creator, so the note and its first grant
/// are created together.
pub fn create_note(note_id: Uid, markdown: String, user_key: &Vec<u8>) -> (r: Result<
    (EncryptedNote, EncryptedNoteKey),
    ApiError,
>)
    requires
        user_key@.len() == 32,
    ensures
        r matches Ok(p) ==> {
            &&& p.0.id == note_id
            &&& p.0.nonce@.len() == 12
            &&& p.0.time_created is None
            &&& p.1.nonce@.len() == 12
            &&& exists|k: Seq<u8>|
                #[trigger] grant_wraps(p.1, user_key@, k) && note_seals(p.0, k, markdown@)
        },
        encode_utf8(markdown@).len() <= 0x1000000000 ==> r is Ok,
{
    let dn = DecryptedNote::new(note_id, markdown);
    let nk = DecryptedNoteKey::new();
    let en = match dn.encrypt(&nk.key) {
        Ok(e) => e,
        Err(_) => {
            return Err(ApiError::Internal);
        },
    };
    let ek = match nk.encrypt(user_key) {
        Ok(e) => e,
        Err(_) => {
            return Err(ApiError::Internal);
        },
    };
    proof {
        assert(grant_wraps(ek, user_key@, nk.key@));
    }
    Ok((en, ek))
}

/// Answers a single-note read: a missing note is NotFound, a missing grant
/// is Forbidden, and an opened note answers with its identifier, title and
/// full markdown.
pub fn read_note(
    note_lookup: Result<EncryptedNote, Error>,
    grant_lookup: Result<EncryptedNoteKey, Error>,
    user_key: &Vec<u8>,
) -> (r: Result<GetNoteResponse, ApiError>)
    requires
        user_key@.len() == 32,
    ensures
        note_lookup matches Err(e) ==> r == Err::<GetNoteResponse, ApiError>(
            if e == Error::NotFound {
                ApiError::NotFound
            } else {
                ApiError::Internal
            },
        ),
        (note_lookup is Ok && grant_lookup is Err) ==> r == Err::<
            GetNoteResponse,
            ApiError,
        >(
            if grant_lookup->Err_0 == Error::NotFound {
                ApiError::Forbidden
            } else {
                ApiError::Internal
            },
        ),
        r matches Ok(resp) ==> {
            &&& note_lookup matches Ok(n) && resp.id == n.id
            &&& (resp.title matches Some(t) ==> title_of(resp.markdown@) == Some(t@))
            &&& (resp.title is None ==> title_of(resp.markdown@) is None)
            &&& grant_lookup matches Ok(g) && (exists|k: Seq<u8>|
                #[trigger] grant_wraps(g, user_key@, k) && note_seals(
                    note_lookup->Ok_0,
                    k,
                    resp.markdown@,
                ))
        },
        (note_lookup is Ok && grant_lookup is Ok && grant_lookup->Ok_0.nonce@.len() == 12
            && note_lookup->Ok_0.nonce@.len() == 12) ==> forall|k: Seq<u8>, text: Seq<char>|
            (#[trigger] grant_wraps(grant_lookup->Ok_0, user_key@, k) && #[trigger] note_seals(
                note_lookup->Ok_0,
                k,
                text,
            )) ==> (r matches Ok(resp) && resp.markdown@ == text),
{
    let note = match note_lookup {
        Ok(n) => n,
        Err(e) => {
            return Err(note_lookup_error(e));
        },
    };
    let grant = match grant_lookup {
        Ok(g) => g,
        Err(e) => {
            return Err(grant_lookup_error(e));
        },
    };
    let dn = match open_note(&note, &grant, user_key) {
        Ok(d) => d,
        Err(e) => {
            return Err(e);
        },
    };
    let title: Option<String> = match dn.title() {
        Some(t) => Some(t.to_owned()),
        None => None,
    };
    Ok(GetNoteResponse { id: dn.id, title, markdown: dn.markdown })
}

/// Builds one note-list entry from a grant link and the note it names: the
/// note is opened with the linked grant and listed under its title.  Any
/// failure here, a missing note included, is internal: the link came from
/// this user's own grants.
pub fn note_list_entry(
    link: &NoteKeyLink,
    note_lookup: Result<EncryptedNote, Error>,
    user_key: &Vec<u8>,
) -> (r: Result<GetNotesResource, ApiError>)
    requires
        user_key@.len() == 32,
    ensures
        note_lookup is Err ==> r == Err::<GetNotesResource, ApiError>(ApiError::Internal),
        r matches Ok(res) ==> {
            &&& res.id == link.note_id
            &&& note_lookup is Ok
            &&& exists|k: Seq<u8>, text: Seq<char>|
                #![trigger grant_wraps(link.note_key, user_key@, k), note_seals(note_lookup->Ok_0, k, text)]
                {
                    &&& grant_wraps(link.note_key, user_key@, k)
                    &&& note_seals(note_lookup->Ok_0, k, text)
                    &&& ((res.title matches Some(t) && title_of(text) == Some(t@)) || (res.title
                        is None && title_of(text) is None))
                }
        },
        (note_lookup is Ok && note_lookup->Ok_0.nonce@.len() == 12 && link.note_key.nonce@.len()
            == 12) ==> forall|k: Seq<u8>, text: Seq<char>|
            (#[trigger] grant_wraps(link.note_key, user_key@, k) && #[trigger] note_seals(
                note_lookup->Ok_0,
                k,
                text,
            )) ==> (r matches Ok(res) && res.id == link.note_id && (res.title is Some <==> title_of(
                text,
            ) is Some) && (res.title matches Some(t) ==> title_of(text) == Some(t@))),
{
    let note = match note_lookup {
        Ok(n) => n,
        Err(_) => {
            return Err(ApiError::Internal);
        },
    };
    let dn = match open_note(&note, &link.note_key, user_key) {
        Ok(d) => d,
        Err(e) => {
            return Err(e);
        },
    };
    let title: Option<String> = match dn.title() {
        Some(t) => Some(t.to_owned()),
        None => None,
    };
    proof {
        assert(encode_utf8(dn.markdown@) == encode_utf8(dn.markdown@));
    }
    Ok(GetNotesResource { id: link.note_id, title })
}

/// Authorizes a note deletion: the note must exist (else NotFound) and the
/// caller must hold a grant on it (else Forbidden); both are opened as a
/// final integrity check.  The note's identifier comes back for the caller
/// to delete the note and its grant together.
pub fn authorize_note_delete(
    note_lookup: Result<EncryptedNote, Error>,
    grant_lookup: Result<EncryptedNoteKey, Error>,
    user_key: &Vec<u8>,
) -> (r: Result<Uid, ApiError>)
    requires
        user_key@.len() == 32,
    ensures
        note_lookup matches Err(e) ==> r == Err::<Uid, ApiError>(
            if e == Error::NotFound {
                ApiError::NotFound
            } else {
                ApiError::Internal
            },
        ),
        (note_lookup is Ok && grant_lookup is Err) ==> r == Err::<Uid, ApiError>(
            if grant_lookup->Err_0 == Error::NotFound {
                ApiError::Forbidden
            } else {
                ApiError::Internal
            },
        ),
        r matches Ok(id) ==> {
            &&& note_lookup matches Ok(n) && id == n.id
            &&& grant_lookup is Ok
        },
        (note_lookup is Ok && grant_lookup is Ok && grant_lookup->Ok_0.nonce@.len() == 12
            && note_lookup->Ok_0.nonce@.len() == 12) ==> forall|k: Seq<u8>, text: Seq<char>|
            (#[trigger] grant_wraps(grant_lookup->Ok_0, user_key@, k) && #[trigger] note_seals(
                note_lookup->Ok_0,
                k,
                text,
            )) ==> r == Ok::<Uid, ApiError>(note_lookup->Ok_0.id),
{
    let note = match note_lookup {
        Ok(n) => n,
        Err(e) => {
            return Err(note_lookup_error(e));
        },
    };
    let grant = match grant_lookup {
        Ok(g) => g,
        Err(e) => {
            return Err(grant_lookup_error(e));
        },
    };
    let dn = match open_note(&note, &grant, user_key) {
        Ok(d) => d,
        Err(e) => {
            return Err(e);
        },
    };
    Ok(dn.id)
}

/// Sets or replaces a user's password, only for the user the claims
/// authenticate: the user key carried by the claims is wrapped anew under
/// the password with a fresh salt, and a fresh, independently salted
/// password verifier is built beside it; both rows persist together.
pub fn set_password_records(
    path_user_id: &Uid,
    claims: &UserClaims,
    password: &str,
) -> (r: Result<(UserKeyRow, UserPasswordRow), ApiError>)
    requires
        claims.wf(),
    ensures
        *path_user_id != claims.user_id ==> r == Err::<(UserKeyRow, UserPasswordRow), ApiError>(
            ApiError::Forbidden,
        ),
        r matches Ok(p) ==> {
            &&& *path_user_id == claims.user_id
            &&& p.0.user_id == claims.user_id
            &&& p.0.salt@.len() == 16
            &&& p.0.nonce@.len() == 12
            &&& p.0.encrypted_key@ == aead_cipher(
                argon2_hash(password@, p.0.salt@),
                p.0.nonce@,
                claims.user_key@,
            )
            &&& p.1.user_id == claims.user_id
            &&& p.1.user_key_id == p.0.id
            &&& p.1.salt@.len() == 16
            &&& p.1.hash@ == argon2_hash(password@, p.1.salt@)
        },
        (*path_user_id == claims.user_id && password@.len() <= 0x3FFFFFFF) ==> r is Ok,
{
    if !(*path_user_id == claims.user_id) {
        return Err(ApiError::Forbidden);
    }
    let user_key = UserKey {
        id: fresh_uid(),
        key: vstd::slice::slice_to_vec(claims.user_key.as_slice()),
    };
    let key_row = match seal_with_password(&claims.user_id, &user_key, password) {
        Ok(row) => row,
        Err(_) => {
            return Err(ApiError::Internal);
        },
    };
    let verifier = match UserPassword::new(&user_key.id, password) {
        Ok(v) => v,
        Err(_) => {
            return Err(ApiError::Internal);
        },
    };
    let password_row = verifier.to_row(&claims.user_id);
    Ok((key_row, password_row))
}

/// Holds when `r` recovers, from the wrapped-key row, every 256-bit user key
/// the row wraps under the password.
pub open spec fn login_recovers(
    key_row: UserKeyRow,
    password: Seq<char>,
    r: Result<UserKey, ApiError>,
) -> bool {
    forall|k: Seq<u8>|
        (k.len() == 32 && key_row.encrypted_key@ == aead_cipher(
            argon2_hash(password, key_row.salt@),
            key_row.nonce@,
            k,
        )) ==> (r matches Ok(uk) && uk.key@ == k)
}

/// The password gate of a login: the offered password is checked against
/// the stored verifier first, and only when it matches is the wrapped user
/// key unwrapped; a wrong password is rejected before any key material is
/// reconstructed.
pub fn login_check(
    user_password: &UserPassword,
    key_row: &UserKeyRow,
    password: &str,
) -> (r: Result<UserKey, ApiError>)
    ensures
        r matches Ok(uk) ==> {
            &&& user_password.accepts(password@)
            &&& uk.wf()
            &&& uk.id == key_row.id
            &&& key_row.encrypted_key@ == aead_cipher(
                argon2_hash(password@, key_row.salt@),
                key_row.nonce@,
                uk.key@,
            )
        },
        (user_password.salt@.len() == 16 && password@.len() <= 0x3FFFFFFF
            && !user_password.accepts(password@)) ==> r == Err::<UserKey, ApiError>(
            ApiError::Unauthorized,
        ),
        (user_password.salt@.len() == 16 && password@.len() <= 0x3FFFFFFF
            && user_password.accepts(password@) && key_row.salt@.len() == 16
            && key_row.nonce@.len() == 12) ==> login_recovers(*key_row, password@, r),
{
    match user_password.verify(password) {
        Err(_) => Err(ApiError::Internal),
        Ok(false) => Err(ApiError::Unauthorized),
        Ok(true) => {
            match recover_with_password(key_row, password) {
                Ok(uk) => Ok(uk),
                Err(_) => Err(ApiError::Internal),
            }
        },
    }
}

/// What a signup creates before anything is persisted: the user, a first
/// session with an expiration, and a fresh user key that exists before any
/// password does.
pub fn register_user(username: String, session_validity_millis: i64) -> (r: (
    User,
    UserSession,
    UserKey,
))
    ensures
        r.0.username@ == username@,
        r.1.expiration_time is Some,
        r.2.wf(),
{
    let user = User::new(username);
    let session = UserSession::new(session_validity_millis);
    let user_key = UserKey::new();
    (user, session, user_key)
}

} // verus!
