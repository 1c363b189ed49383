//! The one entity of the service, and the payloads that carry it.
use vstd::prelude::*;

verus! {

/// The mathematical view of one stored user: id, email, password.
pub struct UserRow {
    pub id: int,
    pub email: Seq<char>,
    pub password: Seq<char>,
}

/// A user as it is stored and returned: the password is kept as received.
#[derive(Clone, Debug)]
pub struct UserProfile {
    pub userid: i32,
    pub email: String,
    pub password: String,
}

impl UserProfile {
    pub open spec fn row(&self) -> UserRow {
        UserRow { id: self.userid as int, email: self.email@, password: self.password@ }
    }

    /// A field-by-field copy.
    pub fn copied(&self) -> (r: UserProfile)
        ensures
            r.row() == self.row(),
    {
        UserProfile {
            userid: self.userid,
            email: self.email.clone(),
            password: self.password.clone(),
        }
    }
}

/// The body of a password update: the new password, if one was sent.
#[derive(Clone, Debug)]
pub struct UpdatePassword {
    pub password: Option<String>,
}

/// The values a registration inserts; the database assigns the id.
#[derive(Clone, Debug)]
pub struct NewUser {
    pub email: String,
    pub password: String,
}

/// What a registration payload inserts: its email and password, its id ignored.
pub fn new_user(payload: UserProfile) -> (r: NewUser)
    ensures
        r.email@ == payload.email@,
        r.password@ == payload.password@,
{
    NewUser { email: payload.email, password: payload.password }
}

} // verus!
