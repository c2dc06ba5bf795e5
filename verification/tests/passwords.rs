use notes_api::api::login_check;
use notes_api::api::set_password_records;
use notes_api::api::ApiError;
use notes_api::ids::Uid;
use notes_api::services::user_keys::recover_with_password;
use notes_api::services::user_keys::seal_with_password;
use notes_api::services::user_keys::UserKey;
use notes_api::services::user_passwords::UserPassword;
use notes_api::services::Error;
use notes_api::tokens::UserClaims;

#[test]
fn verify_valid_password() {
    let user_key_id = Uid { value: 11 };
    let password_str = "1234";
    let user_password =
        UserPassword::new(&user_key_id, password_str).expect("failed to create user password");

    assert!(user_password
        .verify(password_str)
        .expect("failed to verify password"));
}

#[test]
fn verify_invalid_password() {
    let user_key_id = Uid { value: 12 };
    let user_password =
        UserPassword::new(&user_key_id, "1234").expect("failed to create user password");

    assert!(!user_password
        .verify("4321")
        .expect("failed to verify password"));
}

#[test]
fn password_hash_is_a_digest() {
    let user_password =
        UserPassword::new(&Uid { value: 13 }, "1234").expect("failed to create user password");
    // A 32-byte Argon2 digest, not the password itself.
    assert_eq!(user_password.hash.len(), 32);
    assert_ne!(user_password.hash.as_slice(), b"1234".as_slice());
    assert_eq!(user_password.salt.len(), 16);
}

#[test]
fn password_row_round_trip() {
    let user_id = Uid { value: 21 };
    let user_password =
        UserPassword::new(&Uid { value: 22 }, "pw").expect("failed to create user password");
    let row = user_password.to_row(&user_id);
    assert_eq!(row.user_id, user_id);
    let back = UserPassword::from_row(row);
    assert_eq!(back, user_password);
}

#[test]
fn wrapped_user_key_recovers_with_password() {
    let user_id = Uid { value: 31 };
    let user_key = UserKey::new();
    let row = seal_with_password(&user_id, &user_key, "s3cr3t").expect("failed to wrap user key");
    assert_eq!(row.user_id, user_id);
    assert_ne!(row.encrypted_key, user_key.key);

    let recovered = recover_with_password(&row, "s3cr3t").expect("failed to recover user key");
    assert_eq!(recovered, user_key);

    // A wrong password fails the integrity check; no key material comes back.
    assert_eq!(
        recover_with_password(&row, "wrong"),
        Err(Error::DecryptionFailed)
    );
}

#[test]
fn distinct_salts_for_verifier_and_wrapping() {
    let user_id = Uid { value: 41 };
    let session_id = Uid { value: 42 };
    let user_key = UserKey::new();
    let claims = UserClaims::new(session_id, user_id, user_key.key.clone());

    let (key_row, password_row) =
        set_password_records(&user_id, &claims, "s3cr3t").expect("failed to set password");
    assert_eq!(key_row.user_id, user_id);
    assert_eq!(password_row.user_id, user_id);
    assert_eq!(password_row.user_key_id, key_row.id);
    // Independently drawn 16-byte salts; random collision has no real chance.
    assert_ne!(key_row.salt, password_row.salt);
}

#[test]
fn login_accepts_only_the_set_password() {
    let user_id = Uid { value: 51 };
    let session_id = Uid { value: 52 };
    let user_key = UserKey::new();
    let claims = UserClaims::new(session_id, user_id, user_key.key.clone());

    let (key_row, password_row) =
        set_password_records(&user_id, &claims, "s3cr3t").expect("failed to set password");
    let verifier = UserPassword::from_row(password_row);

    let recovered = login_check(&verifier, &key_row, "s3cr3t").expect("failed to log in");
    assert_eq!(recovered.key, user_key.key);

    assert_eq!(
        login_check(&verifier, &key_row, "wrong"),
        Err(ApiError::Unauthorized)
    );
}

#[test]
fn password_set_is_forbidden_for_another_user() {
    let user_key = UserKey::new();
    let claims = UserClaims::new(Uid { value: 61 }, Uid { value: 62 }, user_key.key.clone());
    assert_eq!(
        set_password_records(&Uid { value: 63 }, &claims, "pw"),
        Err(ApiError::Forbidden)
    );
}
