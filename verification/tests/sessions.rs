use notes_api::api::session_gate;
use notes_api::api::ApiError;
use notes_api::db::delete_outcome;
use notes_api::db::Error as DbError;
use notes_api::db::UserSessionRow;
use notes_api::ids::Uid;
use notes_api::services::user_sessions::expiry_after;
use notes_api::services::user_sessions::UserSession;
use notes_api::services::Error;

const DAY_MILLIS: i64 = 24 * 60 * 60 * 1000;

#[test]
fn is_valid_non_persistent() {
    assert!(UserSession::new(31 * DAY_MILLIS).is_valid());
}

#[test]
fn is_valid_persistent() {
    assert!(UserSession::new_persistent().is_valid());
}

#[test]
fn is_invalid() {
    assert!(!UserSession::new(-DAY_MILLIS).is_valid());
}

#[test]
fn validity_at_an_instant() {
    let session = UserSession {
        id: Uid { value: 7 },
        expiration_time: Some(1_000),
    };
    assert!(session.is_valid_at(999));
    assert!(!session.is_valid_at(1_000));
    assert!(!session.is_valid_at(1_001));

    let persistent = UserSession {
        id: Uid { value: 8 },
        expiration_time: None,
    };
    assert!(persistent.is_valid_at(i64::MAX));
    assert!(persistent.is_valid_at(i64::MIN));
}

#[test]
fn session_row_round_trip() {
    let session = UserSession::new_persistent();
    let user_id = Uid { value: 42 };
    let row = session.to_row(&user_id);
    assert_eq!(row.user_id, user_id);
    let back = UserSession::from_row(row);
    assert_eq!(back, session);
}

#[test]
fn gate_rejects_expired_and_missing_sessions() {
    let expired = UserSession {
        id: Uid { value: 1 },
        expiration_time: Some(100),
    };
    assert_eq!(session_gate(Ok(expired), 100), Err(ApiError::Unauthorized));

    let live = UserSession {
        id: Uid { value: 2 },
        expiration_time: Some(100),
    };
    assert_eq!(session_gate(Ok(live), 99), Ok(()));

    let persistent = UserSession {
        id: Uid { value: 3 },
        expiration_time: None,
    };
    assert_eq!(session_gate(Ok(persistent), i64::MAX), Ok(()));

    assert_eq!(
        session_gate(Err(Error::NotFound), 0),
        Err(ApiError::Unauthorized)
    );
    assert_eq!(
        session_gate(Err(Error::Internal), 0),
        Err(ApiError::Unauthorized)
    );
}

#[test]
fn delete_outcome_counts_rows() {
    assert_eq!(delete_outcome(0), Err(DbError::NotFound));
    assert_eq!(delete_outcome(1), Ok(()));
    assert_eq!(delete_outcome(2), Err(DbError::TooMany));
}

#[test]
fn expiry_is_clamped_at_the_clock_range() {
    assert_eq!(expiry_after(100, 50), 150);
    assert_eq!(expiry_after(100, -50), 50);
    assert_eq!(expiry_after(i64::MAX, 1), i64::MAX);
    assert_eq!(expiry_after(i64::MIN, -1), i64::MIN);
}

#[test]
fn session_row_holds_expiration() {
    let row = UserSessionRow {
        id: Uid { value: 5 },
        user_id: Uid { value: 6 },
        expiration_time: Some(123),
    };
    let session = UserSession::from_row(row);
    assert_eq!(session.expiration_time, Some(123));
}
