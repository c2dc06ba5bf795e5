use notes_api::api::authorize_note_delete;
use notes_api::api::create_note;
use notes_api::api::note_list_entry;
use notes_api::api::read_note;
use notes_api::api::update_note;
use notes_api::api::ApiError;
use notes_api::db::NoteKeyRow;
use notes_api::ids::Uid;
use notes_api::services::note_keys::links_from_rows;
use notes_api::services::note_keys::DecryptedNoteKey;
use notes_api::services::note_keys::NoteKeyLink;
use notes_api::services::notes::DecryptedNote;
use notes_api::services::user_keys::UserKey;
use notes_api::services::Error;

fn fresh_user_key() -> Vec<u8> {
    UserKey::new().key
}

#[test]
fn notes_encrypt_decrypt() {
    let note = DecryptedNote::new(Uid { value: 1 }, "hello, world".to_string());
    let note_key = DecryptedNoteKey::new();
    let encrypted_note = note.encrypt(&note_key.key).expect("failed to encrypt note");

    assert_eq!(
        encrypted_note
            .decrypt(&note_key.key)
            .expect("failed to decrypt note"),
        note
    );
}

#[test]
fn note_keys_encrypt_decrypt() {
    let user_key = fresh_user_key();
    let note_key = DecryptedNoteKey::new();
    let encrypted_note_key = note_key
        .encrypt(&user_key)
        .expect("failed to encrypt note key");

    assert_eq!(
        encrypted_note_key
            .decrypt(&user_key)
            .expect("failed to decrypt note key"),
        note_key
    );
}

#[test]
fn decryption_needs_the_right_key() {
    let note = DecryptedNote::new(Uid { value: 2 }, "secret".to_string());
    let note_key = DecryptedNoteKey::new();
    let other_key = DecryptedNoteKey::new();
    let encrypted = note.encrypt(&note_key.key).expect("failed to encrypt note");

    // The ciphertext is not the plaintext, and the wrong key fails the tag
    // check instead of returning anything.
    assert_ne!(encrypted.encrypted_markdown, b"secret".to_vec());
    assert_eq!(
        encrypted.decrypt(&other_key.key),
        Err(Error::DecryptionFailed)
    );
}

#[test]
fn seal_draws_a_fresh_nonce_every_time() {
    let note_key = DecryptedNoteKey::new();
    let first = DecryptedNote::new(Uid { value: 3 }, "one".to_string());
    let second = DecryptedNote::new(Uid { value: 3 }, "two".to_string());

    let mut nonces = Vec::new();
    for note in [&first, &second, &first, &second] {
        let sealed = note.encrypt(&note_key.key).expect("failed to encrypt");
        nonces.push(sealed.nonce);
    }
    for i in 0..nonces.len() {
        for j in 0..nonces.len() {
            if i != j {
                assert_ne!(nonces[i], nonces[j]);
            }
        }
    }
}

#[test]
fn note_save_then_list_shows_title() {
    let user_key = fresh_user_key();
    let note_id = Uid { value: 10 };
    let (note, grant) = create_note(note_id, "# Hello\nBody text".to_string(), &user_key)
        .expect("failed to create note");

    let link = NoteKeyLink {
        note_id,
        note_key: grant.clone(),
    };
    let entry =
        note_list_entry(&link, Ok(note.clone()), &user_key).expect("failed to list the note");
    assert_eq!(entry.id, note_id);
    assert_eq!(entry.title, Some("Hello".to_string()));

    let full = read_note(Ok(note), Ok(grant), &user_key).expect("failed to read the note");
    assert_eq!(full.id, note_id);
    assert_eq!(full.title, Some("Hello".to_string()));
    assert_eq!(full.markdown, "# Hello\nBody text");
}

#[test]
fn note_update_changes_nonce_not_key() {
    let user_key = fresh_user_key();
    let note_id = Uid { value: 11 };
    let (note, grant) = create_note(note_id, "# Hello\nBody text".to_string(), &user_key)
        .expect("failed to create note");

    let updated = update_note(
        &note,
        Ok(grant.clone()),
        &user_key,
        "# Goodbye\nBody text".to_string(),
    )
    .expect("failed to update note");

    // A fresh nonce wraps the new content; the note key and its grant are
    // untouched, so the same grant still opens the new ciphertext.
    assert_ne!(updated.nonce, note.nonce);
    let fetched = read_note(Ok(updated), Ok(grant), &user_key).expect("failed to re-read note");
    assert_eq!(fetched.markdown, "# Goodbye\nBody text");
    assert_eq!(fetched.title, Some("Goodbye".to_string()));
}

#[test]
fn note_delete_then_fetch_is_not_found() {
    let user_key = fresh_user_key();
    let note_id = Uid { value: 12 };
    let (note, grant) = create_note(note_id, "# Hello\nBody text".to_string(), &user_key)
        .expect("failed to create note");

    // Deletion is authorized while the note and its grant exist.
    let deleted_id = authorize_note_delete(Ok(note.clone()), Ok(grant.clone()), &user_key)
        .expect("failed to authorize deletion");
    assert_eq!(deleted_id, note_id);

    // Both rows gone: the former owner sees NotFound, not Forbidden.
    assert_eq!(
        read_note(Err(Error::NotFound), Err(Error::NotFound), &user_key),
        Err(ApiError::NotFound)
    );
    assert_eq!(
        authorize_note_delete(Err(Error::NotFound), Err(Error::NotFound), &user_key),
        Err(ApiError::NotFound)
    );
}

#[test]
fn foreign_note_without_grant_is_forbidden() {
    let owner_key = fresh_user_key();
    let intruder_key = fresh_user_key();
    let note_id = Uid { value: 13 };
    let (note, _grant) = create_note(note_id, "# Hello\nBody text".to_string(), &owner_key)
        .expect("failed to create note");

    // The note exists, but the second user holds no grant: Forbidden,
    // distinct from the missing-note answer.
    assert_eq!(
        read_note(Ok(note.clone()), Err(Error::NotFound), &intruder_key),
        Err(ApiError::Forbidden)
    );
    assert_eq!(
        authorize_note_delete(Ok(note), Err(Error::NotFound), &intruder_key),
        Err(ApiError::Forbidden)
    );
}

#[test]
fn sealing_uses_fresh_96_bit_nonces_and_256_bit_keys() {
    let user_key = fresh_user_key();
    assert_eq!(user_key.len(), 32);
    let note_key = DecryptedNoteKey::new();
    assert_eq!(note_key.key.len(), 32);

    let note = DecryptedNote::new(Uid { value: 20 }, "body".to_string());
    let sealed = note.encrypt(&note_key.key).expect("failed to encrypt note");
    assert_eq!(sealed.nonce.len(), 12);

    let grant = note_key
        .encrypt(&user_key)
        .expect("failed to encrypt note key");
    assert_eq!(grant.nonce.len(), 12);
}

#[test]
fn grant_links_keep_row_order() {
    let rows = vec![
        NoteKeyRow {
            id: Uid { value: 30 },
            note_id: Uid { value: 31 },
            user_id: Uid { value: 32 },
            encrypted_key: vec![1, 2, 3],
            nonce: vec![4, 5, 6],
        },
        NoteKeyRow {
            id: Uid { value: 33 },
            note_id: Uid { value: 34 },
            user_id: Uid { value: 32 },
            encrypted_key: vec![7, 8, 9],
            nonce: vec![10, 11, 12],
        },
    ];
    let links = links_from_rows(&rows);
    assert_eq!(links.len(), 2);
    assert_eq!(links[0].note_id, Uid { value: 31 });
    assert_eq!(links[0].note_key.id, Uid { value: 30 });
    assert_eq!(links[0].note_key.encrypted_key, vec![1, 2, 3]);
    assert_eq!(links[1].note_id, Uid { value: 34 });
    assert_eq!(links[1].note_key.nonce, vec![10, 11, 12]);
}

#[test]
fn empty_note_round_trips() {
    let user_key = fresh_user_key();
    let note_id = Uid { value: 21 };
    let (note, grant) =
        create_note(note_id, String::new(), &user_key).expect("failed to create empty note");
    let fetched = read_note(Ok(note), Ok(grant), &user_key).expect("failed to read empty note");
    assert_eq!(fetched.markdown, "");
    assert_eq!(fetched.title, None);
}

#[test]
fn note_row_round_trip() {
    let user_key = fresh_user_key();
    let (note, grant) = create_note(Uid { value: 14 }, "body".to_string(), &user_key)
        .expect("failed to create note");

    let note_row = note.to_row();
    assert_eq!(note_row.id, note.id);
    assert_eq!(note_row.encrypted_markdown, note.encrypted_markdown);
    assert_eq!(note_row.nonce, note.nonce);

    let grant_row = grant.to_row(&note.id, &Uid { value: 15 });
    assert_eq!(grant_row.note_id, note.id);
    assert_eq!(grant_row.user_id, Uid { value: 15 });
    assert_eq!(grant_row.encrypted_key, grant.encrypted_key);
}
