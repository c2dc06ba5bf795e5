use vstd::prelude::*;

use vstd::utf8::encode_utf8;

use josekit::jwe::alg::aesgcmkw::AesgcmkwJweAlgorithm;
use josekit::jwe::JweHeader;
use josekit::jwk::Jwk;
use josekit::jwt::JwtPayload;
use josekit::JoseError;

use crate::encoding::b64_decode;
use crate::encoding::b64_encode;
use crate::encoding::base64_text;
use crate::ids::parse_uid;
use crate::ids::uid_to_string;
use crate::ids::uuid_of_text;
use crate::ids::uuid_text;
use crate::ids::Uid;

verus! {

/// The claims a bearer token carries: the session it belongs to, the user it
/// authenticates, and the user's decrypted key.  They exist only inside the
/// encrypted token and in memory while a request is handled.
#[derive(Debug, PartialEq)]
pub struct UserClaims {
    pub session_id: Uid,
    pub user_id: Uid,
    pub user_key: Vec<u8>,
}

impl UserClaims {
    /// Well-formed claims carry a 256-bit user key in 32 bytes.
    pub open spec fn wf(&self) -> bool {
        self.user_key@.len() == 32
    }

    pub fn new(session_id: Uid, user_id: Uid, user_key: Vec<u8>) -> (r: Self)
        ensures
            r.session_id == session_id,
            r.user_id == user_id,
            r.user_key@ == user_key@,
    {
        UserClaims { session_id, user_id, user_key }
    }

    pub fn session_id(&self) -> (r: &Uid)
        ensures
            *r == self.session_id,
    {
        &self.session_id
    }

    pub fn user_id(&self) -> (r: &Uid)
        ensures
            *r == self.user_id,
    {
        &self.user_id
    }

    pub fn user_key(&self) -> (r: &Vec<u8>)
        ensures
            r@ == self.user_key@,
    {
        &self.user_key
    }
}

/// Why a bearer token was rejected: the wrong master key or a tampered
/// token, a structurally bad claim, or an unexpected fault.
#[derive(Debug, PartialEq, Eq, Structural, Clone, Copy)]
pub enum TokenDecryptionError {
    InvalidKey,
    InvalidClaim,
    Internal,
}

/// How the encrypted container itself failed to open, before any claim is
/// read: not a well-formed sealed container under this key, or some other
/// fault.
#[derive(Debug, PartialEq, Eq, Structural, Clone, Copy)]
pub enum TokenReadError {
    Format,
    Other,
}

/// The three claim texts a token can carry: the session and user identifier
/// texts from the protected header and the key text from the encrypted
/// payload, each absent when missing or not a string.
pub type ClaimTexts = (Option<Seq<char>>, Option<Seq<char>>, Option<Seq<char>>);

/// What opening a sealed token under a 32-byte master key yields, a function
/// of token and key alone: None when the container does not open (a wrong
/// key, a tampered token, or no well-formed sealed container at all);
/// Some(None) when it opens but its decrypted claims cannot be read;
/// Some(Some(texts)) when it opens to these claim texts.
pub uninterp spec fn jwe_claims(token: Seq<u8>, key: Seq<u8>) -> Option<Option<ClaimTexts>>;

/// Holds when `r` is the outcome that `jwe_claims` fixes for this token and
/// key: the claim strings when the token opens to readable texts, Format
/// when the container does not open, Other when it opens but cannot be read.
pub open spec fn jwe_outcome(
    token: Seq<u8>,
    key: Seq<u8>,
    r: Result<(Option<String>, Option<String>, Option<String>), TokenReadError>,
) -> bool {
    &&& (r matches Ok(p) ==> jwe_claims(token, key) == Some(Some(text_views(p))))
    &&& (jwe_claims(token, key) matches Some(Some(texts)) ==> (r matches Ok(p) && text_views(p)
        == texts))
    &&& (jwe_claims(token, key) is None ==> r == Err::<
        (Option<String>, Option<String>, Option<String>),
        TokenReadError,
    >(TokenReadError::Format))
    &&& (jwe_claims(token, key) == Some(None::<ClaimTexts>) ==> r == Err::<
        (Option<String>, Option<String>, Option<String>),
        TokenReadError,
    >(TokenReadError::Other))
}

/// The texts of three optional claim strings.
pub open spec fn text_views(parts: (Option<String>, Option<String>, Option<String>)) -> ClaimTexts {
    (
        match parts.0 {
            Some(s) => Some(s@),
            None => None,
        },
        match parts.1 {
            Some(s) => Some(s@),
            None => None,
        },
        match parts.2 {
            Some(s) => Some(s@),
            None => None,
        },
    )
}

/// Draws a fresh 256-bit master key for the token codec; the server loads
/// one at startup into read-only state and never mutates it.
pub fn generate_master_key() -> (r: Vec<u8>)
    ensures
        r@.len() == 32,
{
    crate::crypto::generate_key_bytes()
}

/// Relies on josekit's jwt::encode_with_encrypter with the A256GCMKW
/// algorithm and A256GCM content encryption, under an oct JWK built from the
/// 32 master-key bytes: the identifier texts go to the protected header, the
/// key text to the encrypted payload, and josekit's decoding inverts its
/// encoding, so the sealed token opens under the same key to exactly the
/// three texts sealed.  The token text embeds a randomly drawn content key,
/// so nothing more is assumed of it.
#[verifier::external_body]
pub(crate) fn jwe_seal(
    session_text: &String,
    user_text: &String,
    key_text: &String,
    master_key: &[u8],
) -> (r: Result<String, ()>)
    requires
        master_key@.len() == 32,
    ensures
        r matches Ok(t) ==> jwe_claims(encode_utf8(t@), master_key@) == Some(
            Some((Some(session_text@), Some(user_text@), Some(key_text@))),
        ),
{
    let mut jwk = Jwk::new("oct");
    jwk.set_key_value(master_key);
    let mut header = JweHeader::new();
    header.set_token_type("JWT");
    header.set_algorithm("A256GCMKW");
    header.set_content_encryption("A256GCM");
    header.set_claim("session_id", Some(session_text.clone().into())).map_err(|_| ())?;
    header.set_claim("user_id", Some(user_text.clone().into())).map_err(|_| ())?;
    let mut payload = JwtPayload::new();
    payload.set_claim("user_key", Some(key_text.clone().into())).map_err(|_| ())?;
    let encrypter = AesgcmkwJweAlgorithm::A256gcmkw.encrypter_from_jwk(&jwk).map_err(|_| ())?;
    josekit::jwt::encode_with_encrypter(&payload, &header, &encrypter).map_err(|_| ())
}

/// Relies on josekit's jwt::decode_with_decrypter with the A256GCMKW
/// algorithm, under an oct JWK built from the 32 master-key bytes.  The
/// outcome is a function of token and key alone: a container that does not
/// open — wrong key, tampering, or a malformed container — is josekit's JWE
/// format failure, here Format; one that opens but whose decrypted claims
/// cannot be read is Other; one that opens and reads hands back the session
/// and user header claims and the key payload claim, each absent when
/// missing or not a string.
#[verifier::external_body]
pub(crate) fn jwe_open(input: &[u8], master_key: &[u8]) -> (r: Result<
    (Option<String>, Option<String>, Option<String>),
    TokenReadError,
>)
    requires
        master_key@.len() == 32,
    ensures
        jwe_outcome(input@, master_key@, r),
{
    let mut jwk = Jwk::new("oct");
    jwk.set_key_value(master_key);
    let decrypter = AesgcmkwJweAlgorithm::A256gcmkw.decrypter_from_jwk(&jwk).map_err(|_| TokenReadError::Other)?;
    let (payload, header) = josekit::jwt::decode_with_decrypter(input, &decrypter).map_err(
        |e| match e {
            JoseError::InvalidJweFormat(_) => TokenReadError::Format,
            _ => TokenReadError::Other,
        },
    )?;
    let session = header.claims_set().get("session_id").and_then(|v| v.as_str()).map(String::from);
    let user = header.claims_set().get("user_id").and_then(|v| v.as_str()).map(String::from);
    let key = payload.claims_set().get("user_key").and_then(|v| v.as_str()).map(String::from);
    Ok((session, user, key))
}

/// Holds when `r` rebuilds, from rendered claim texts, every well-formed set
/// of claims those texts render.
pub open spec fn rebuilds_claims(
    session_text: Option<String>,
    user_text: Option<String>,
    key_text: Option<String>,
    r: Result<UserClaims, TokenDecryptionError>,
) -> bool {
    forall|sid: u128, uid: u128, kb: Seq<u8>|
        {
            &&& session_text matches Some(st) && st@ == #[trigger] uuid_text(sid)
            &&& user_text matches Some(ut) && ut@ == #[trigger] uuid_text(uid)
            &&& key_text matches Some(kt) && kt@ == #[trigger] base64_text(kb)
            &&& kb.len() == 32
        } ==> (r matches Ok(c) && c.session_id.value == sid && c.user_id.value == uid
            && c.user_key@ == kb)
}

/// The same, over the claim texts themselves.
pub open spec fn rebuilds_claim_texts(
    parts: ClaimTexts,
    r: Result<UserClaims, TokenDecryptionError>,
) -> bool {
    forall|sid: u128, uid: u128, kb: Seq<u8>|
        {
            &&& parts.0 == Some(#[trigger] uuid_text(sid))
            &&& parts.1 == Some(#[trigger] uuid_text(uid))
            &&& parts.2 == Some(#[trigger] base64_text(kb))
            &&& kb.len() == 32
        } ==> (r matches Ok(c) && c.session_id.value == sid && c.user_id.value == uid
            && c.user_key@ == kb)
}

/// Rebuilds claims from the three texts a token carried.  A missing text, a
/// session or user text that reads as no identifier, a key text that is not
/// base64, or a decoded key of the wrong size is InvalidClaim; the texts
/// that rendering well-formed claims produces always rebuild those claims,
/// and rebuilt claims tie every field to its text.
pub fn claims_from_parts(
    session_text: Option<String>,
    user_text: Option<String>,
    key_text: Option<String>,
) -> (r: Result<UserClaims, TokenDecryptionError>)
    ensures
        r matches Ok(c) ==> {
            &&& c.wf()
            &&& session_text matches Some(st) && uuid_of_text(st@) == Some(c.session_id.value)
            &&& user_text matches Some(ut) && uuid_of_text(ut@) == Some(c.user_id.value)
            &&& key_text matches Some(kt) && kt@ == base64_text(c.user_key@)
        },
        session_text is None ==> r == Err::<UserClaims, TokenDecryptionError>(
            TokenDecryptionError::InvalidClaim,
        ),
        user_text is None ==> r == Err::<UserClaims, TokenDecryptionError>(
            TokenDecryptionError::InvalidClaim,
        ),
        key_text is None ==> r == Err::<UserClaims, TokenDecryptionError>(
            TokenDecryptionError::InvalidClaim,
        ),
        (session_text matches Some(st) && uuid_of_text(st@) is None) ==> r == Err::<
            UserClaims,
            TokenDecryptionError,
        >(TokenDecryptionError::InvalidClaim),
        (user_text matches Some(ut) && uuid_of_text(ut@) is None) ==> r == Err::<
            UserClaims,
            TokenDecryptionError,
        >(TokenDecryptionError::InvalidClaim),
        forall|kb: Seq<u8>|
            (key_text matches Some(kt) && kt@ == #[trigger] base64_text(kb) && kb.len() != 32)
                ==> r == Err::<UserClaims, TokenDecryptionError>(TokenDecryptionError::InvalidClaim),
        rebuilds_claims(session_text, user_text, key_text, r),
{
    let session_text = match session_text {
        Some(s) => s,
        None => {
            return Err(TokenDecryptionError::InvalidClaim);
        },
    };
    let session_id = match parse_uid(session_text.as_str()) {
        Ok(u) => u,
        Err(_) => {
            return Err(TokenDecryptionError::InvalidClaim);
        },
    };
    let user_text = match user_text {
        Some(s) => s,
        None => {
            return Err(TokenDecryptionError::InvalidClaim);
        },
    };
    let user_id = match parse_uid(user_text.as_str()) {
        Ok(u) => u,
        Err(_) => {
            return Err(TokenDecryptionError::InvalidClaim);
        },
    };
    let key_text = match key_text {
        Some(s) => s,
        None => {
            return Err(TokenDecryptionError::InvalidClaim);
        },
    };
    let user_key = match b64_decode(key_text.as_str()) {
        Ok(v) => v,
        Err(_) => {
            return Err(TokenDecryptionError::InvalidClaim);
        },
    };
    if user_key.len() != 32 {
        return Err(TokenDecryptionError::InvalidClaim);
    }
    Ok(UserClaims { session_id, user_id, user_key })
}

/// Seals the claims into a self-contained bearer token under the 32-byte
/// master key: the identifiers go to integrity-protected metadata, the user
/// key, base64-encoded, to the encrypted payload alone.  A sealed token
/// opens under the same key to exactly the claims' three rendered texts.
pub fn encrypt(claims: &UserClaims, master_key: &[u8]) -> (r: Result<
    String,
    crate::services::Error,
>)
    requires
        master_key@.len() == 32,
    ensures
        r matches Ok(t) ==> jwe_claims(encode_utf8(t@), master_key@) == Some(
            Some(
                (
                    Some(uuid_text(claims.session_id.value)),
                    Some(uuid_text(claims.user_id.value)),
                    Some(base64_text(claims.user_key@)),
                ),
            ),
        ),
{
    let session_text = uid_to_string(&claims.session_id);
    let user_text = uid_to_string(&claims.user_id);
    let key_text = b64_encode(claims.user_key.as_slice());
    match jwe_seal(&session_text, &user_text, &key_text, master_key) {
        Ok(token) => Ok(token),
        Err(_) => Err(crate::services::Error::Internal),
    }
}

/// Opens a bearer token under the 32-byte master key and rebuilds its
/// claims.  A container that does not open under the key — the wrong key, a
/// tampered token, or no sealed container at all — is InvalidKey; one that
/// opens but whose claims cannot be read is Internal; claims that do not
/// parse are InvalidClaim; and the claim texts a sealed token carries always
/// rebuild the claims they render, so no partial or default-filled claims
/// ever come back.
pub fn decrypt(input: &[u8], master_key: &[u8]) -> (r: Result<UserClaims, TokenDecryptionError>)
    requires
        master_key@.len() == 32,
    ensures
        r matches Ok(c) ==> c.wf(),
        jwe_claims(input@, master_key@) is None ==> r == Err::<UserClaims, TokenDecryptionError>(
            TokenDecryptionError::InvalidKey,
        ),
        jwe_claims(input@, master_key@) == Some(None::<ClaimTexts>) ==> r == Err::<
            UserClaims,
            TokenDecryptionError,
        >(TokenDecryptionError::Internal),
        jwe_claims(input@, master_key@) matches Some(Some(parts)) ==> {
            &&& parts.0 is None ==> r == Err::<UserClaims, TokenDecryptionError>(
                TokenDecryptionError::InvalidClaim,
            )
            &&& parts.1 is None ==> r == Err::<UserClaims, TokenDecryptionError>(
                TokenDecryptionError::InvalidClaim,
            )
            &&& parts.2 is None ==> r == Err::<UserClaims, TokenDecryptionError>(
                TokenDecryptionError::InvalidClaim,
            )
            &&& (parts.0 matches Some(st) && uuid_of_text(st) is None) ==> r == Err::<
                UserClaims,
                TokenDecryptionError,
            >(TokenDecryptionError::InvalidClaim)
            &&& (parts.1 matches Some(ut) && uuid_of_text(ut) is None) ==> r == Err::<
                UserClaims,
                TokenDecryptionError,
            >(TokenDecryptionError::InvalidClaim)
            &&& forall|kb: Seq<u8>|
                (parts.2 == Some(#[trigger] base64_text(kb)) && kb.len() != 32) ==> r == Err::<
                    UserClaims,
                    TokenDecryptionError,
                >(TokenDecryptionError::InvalidClaim)
            &&& rebuilds_claim_texts(parts, r)
            &&& r matches Ok(c) ==> {
                &&& parts.0 matches Some(st) && uuid_of_text(st) == Some(c.session_id.value)
                &&& parts.1 matches Some(ut) && uuid_of_text(ut) == Some(c.user_id.value)
                &&& parts.2 == Some(base64_text(c.user_key@))
            }
        },
{
    match jwe_open(input, master_key) {
        Ok((session_text, user_text, key_text)) => claims_from_parts(
            session_text,
            user_text,
            key_text,
        ),
        Err(TokenReadError::Format) => Err(TokenDecryptionError::InvalidKey),
        Err(TokenReadError::Other) => Err(TokenDecryptionError::Internal),
    }
}

} // verus!
