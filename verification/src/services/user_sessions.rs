use vstd::prelude::*;

use crate::clock::now_millis;
use crate::db::UserSessionRow;
use crate::ids::fresh_uid;
use crate::ids::Uid;

verus! {

/// A login session.  `expiration_time` is milliseconds since the Unix epoch;
/// None means the session never expires.
#[derive(Debug, PartialEq)]
pub struct UserSession {
    pub id: Uid,
    pub expiration_time: Option<i64>,
}

/// Addition on the session clock, clamped to the representable range.
pub open spec fn clamped_sum(a: i64, b: i64) -> int {
    if a + b > i64::MAX {
        i64::MAX as int
    } else if a + b < i64::MIN {
        i64::MIN as int
    } else {
        a + b
    }
}

/// The instant a given validity span ends when it starts now.
pub fn expiry_after(now: i64, validity_millis: i64) -> (r: i64)
    ensures
        r == clamped_sum(now, validity_millis),
{
    if validity_millis >= 0 {
        if now <= i64::MAX - validity_millis {
            now + validity_millis
        } else {
            i64::MAX
        }
    } else {
        if now >= i64::MIN - validity_millis {
            now + validity_millis
        } else {
            i64::MIN
        }
    }
}

impl UserSession {
    /// Validity at a given instant: a session with no expiration is always
    /// valid; one with an expiration is valid strictly before it and invalid
    /// from that instant on.
    pub open spec fn valid_at(&self, now: i64) -> bool {
        match self.expiration_time {
            None => true,
            Some(t) => now < t,
        }
    }

    /// Creates a session, under a fresh random identifier, that expires the
    /// given number of milliseconds from now.
    pub fn new(validity_millis: i64) -> (r: Self)
        ensures
            r.expiration_time is Some,
    {
        let now = now_millis();
        UserSession { id: fresh_uid(), expiration_time: Some(expiry_after(now, validity_millis)) }
    }

    /// Creates a session, under a fresh random identifier, that never
    /// expires.
    pub fn new_persistent() -> (r: Self)
        ensures
            r.expiration_time is None,
    {
        UserSession { id: fresh_uid(), expiration_time: None }
    }

    pub fn id(&self) -> (r: &Uid)
        ensures
            *r == self.id,
    {
        &self.id
    }

    /// Validity at the given instant.
    pub fn is_valid_at(&self, now: i64) -> (r: bool)
        ensures
            r == self.valid_at(now),
    {
        match self.expiration_time {
            None => true,
            Some(t) => now < t,
        }
    }

    /// Validity read against the wall clock; a session with no expiration is
    /// valid whatever the clock says.
    pub fn is_valid(&self) -> (r: bool)
        ensures
            self.expiration_time is None ==> r,
    {
        let now = now_millis();
        self.is_valid_at(now)
    }

    /// The storage row that persists this session for the given user.
    pub fn to_row(&self, user_id: &Uid) -> (r: UserSessionRow)
        ensures
            r.id == self.id,
            r.user_id == *user_id,
            r.expiration_time == self.expiration_time,
    {
        UserSessionRow { id: self.id, user_id: *user_id, expiration_time: self.expiration_time }
    }

    /// The session a storage row holds.
    pub fn from_row(row: UserSessionRow) -> (r: Self)
        ensures
            r.id == row.id,
            r.expiration_time == row.expiration_time,
    {
        UserSession { id: row.id, expiration_time: row.expiration_time }
    }
}

} // verus!
