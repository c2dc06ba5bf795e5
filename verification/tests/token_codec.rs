use notes_api::api::register_user;
use notes_api::ids::Uid;
use notes_api::tokens::claims_from_parts;
use notes_api::tokens::decrypt;
use notes_api::tokens::encrypt;
use notes_api::tokens::TokenDecryptionError;
use notes_api::tokens::UserClaims;

fn fresh_master_key() -> Vec<u8> {
    notes_api::tokens::generate_master_key()
}

fn fresh_claims() -> UserClaims {
    let (user, session, user_key) = register_user("alice".to_string(), 31 * 24 * 3600 * 1000);
    UserClaims::new(session.id, user.id, user_key.key)
}

#[test]
fn encrypt_decrypt_user_claims() {
    let master_key = fresh_master_key();
    let user_claims = fresh_claims();

    let user_claims_encrypted = encrypt(&user_claims, &master_key).expect("failed to encrypt user claims");
    let user_claims_decrypted = decrypt(user_claims_encrypted.as_bytes(), &master_key)
        .expect("failed to decrypt user claims");

    assert_eq!(user_claims, user_claims_decrypted);
}

#[test]
fn signup_token_carries_fresh_claims() {
    let master_key = fresh_master_key();
    let (user, session, user_key) = register_user("alice".to_string(), 31 * 24 * 3600 * 1000);
    assert_eq!(user.username, "alice");
    assert!(session.expiration_time.is_some());

    let claims = UserClaims::new(session.id, user.id, user_key.key.clone());
    let token = encrypt(&claims, &master_key).expect("failed to encrypt claims");
    let opened = decrypt(token.as_bytes(), &master_key).expect("failed to decrypt claims");
    assert_eq!(opened.session_id, session.id);
    assert_eq!(opened.user_id, user.id);
    assert_eq!(opened.user_key.len(), 32);
    assert_eq!(opened.user_key, user_key.key);
}

#[test]
fn wrong_master_key_is_rejected() {
    let master_key = fresh_master_key();
    let other_master_key = fresh_master_key();
    let claims = fresh_claims();

    let token = encrypt(&claims, &master_key).expect("failed to encrypt claims");
    // A wrong master key fails the container's integrity check: InvalidKey,
    // with no partial claims.
    assert_eq!(
        decrypt(token.as_bytes(), &other_master_key),
        Err(TokenDecryptionError::InvalidKey)
    );
}

#[test]
fn garbage_token_is_rejected() {
    let master_key = fresh_master_key();
    assert!(decrypt(b"not-a-token", &master_key).is_err());
}

#[test]
fn claims_need_all_three_parts() {
    let sid = "b1d9e7a0-3c64-4f5d-9a51-0123456789ab".to_string();
    let uid = "c2e0f8b1-4d75-405e-ab62-0123456789ab".to_string();
    // The standard base64 form of 32 zero bytes.
    let key = "AAAAAAAAAAAAAAAAAAAAAAAAAAAAAAAAAAAAAAAAAAA=".to_string();

    assert_eq!(
        claims_from_parts(None, Some(uid.clone()), Some(key.clone())),
        Err(TokenDecryptionError::InvalidClaim)
    );
    assert_eq!(
        claims_from_parts(Some(sid.clone()), None, Some(key.clone())),
        Err(TokenDecryptionError::InvalidClaim)
    );
    assert_eq!(
        claims_from_parts(Some(sid.clone()), Some(uid.clone()), None),
        Err(TokenDecryptionError::InvalidClaim)
    );

    let rebuilt = claims_from_parts(Some(sid.clone()), Some(uid.clone()), Some(key))
        .expect("well-formed parts must rebuild");
    assert_eq!(rebuilt.user_key, vec![0u8; 32]);
}

#[test]
fn malformed_claims_are_invalid() {
    let sid = "b1d9e7a0-3c64-4f5d-9a51-0123456789ab".to_string();
    let uid = "c2e0f8b1-4d75-405e-ab62-0123456789ab".to_string();
    let good_key = "AAAAAAAAAAAAAAAAAAAAAAAAAAAAAAAAAAAAAAAAAAA=".to_string();

    // A session id that is no identifier.
    assert_eq!(
        claims_from_parts(
            Some("not-a-uuid".to_string()),
            Some(uid.clone()),
            Some(good_key.clone())
        ),
        Err(TokenDecryptionError::InvalidClaim)
    );
    // A key that is no base64.
    assert_eq!(
        claims_from_parts(
            Some(sid.clone()),
            Some(uid.clone()),
            Some("!!!".to_string())
        ),
        Err(TokenDecryptionError::InvalidClaim)
    );
    // A key of the wrong size: base64 of 4 bytes.
    assert_eq!(
        claims_from_parts(Some(sid), Some(uid), Some("AAAAAA==".to_string())),
        Err(TokenDecryptionError::InvalidClaim)
    );
}

#[test]
fn claim_texts_round_trip_through_the_token() {
    let master_key = fresh_master_key();
    let claims = UserClaims::new(Uid { value: 1 }, Uid { value: u128::MAX }, vec![7u8; 32]);
    let token = encrypt(&claims, &master_key).expect("failed to encrypt claims");
    let opened = decrypt(token.as_bytes(), &master_key).expect("failed to decrypt claims");
    assert_eq!(opened.session_id, Uid { value: 1 });
    assert_eq!(opened.user_id, Uid { value: u128::MAX });
    assert_eq!(opened.user_key, vec![7u8; 32]);
}
