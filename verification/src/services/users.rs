use vstd::prelude::*;

use crate::db::UserRow;
use crate::ids::fresh_uid;
use crate::ids::Uid;

verus! {

/// A user of the system, with a unique username.
#[derive(Debug, PartialEq)]
pub struct User {
    pub id: Uid,
    pub username: String,
}

impl User {
    /// Creates a user with a fresh random identifier and the given username.
    pub fn new(username: String) -> (r: Self)
        ensures
            r.username@ == username@,
    {
        User { id: fresh_uid(), username }
    }

    pub fn id(&self) -> (r: &Uid)
        ensures
            *r == self.id,
    {
        &self.id
    }

    pub fn username(&self) -> (r: &str)
        ensures
            r@ == self.username@,
    {
        self.username.as_str()
    }

    /// The storage row that persists this user.
    pub fn to_row(&self) -> (r: UserRow)
        ensures
            r.id == self.id,
            r.username@ == self.username@,
    {
        UserRow { id: self.id, username: self.username.clone() }
    }

    /// The user a storage row holds.
    pub fn from_row(row: UserRow) -> (r: Self)
        ensures
            r.id == row.id,
            r.username@ == row.username@,
    {
        User { id: row.id, username: row.username }
    }
}

} // verus!
