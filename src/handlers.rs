//! What each route answers. The decisions are split from the statements they
//! wait on, so that a server can run the statements against a database, and the
//! handlers below run them against an in-process `UserStore`.
use vstd::prelude::*;
use crate::store::{StoreError, UserStore, rows_of};
use crate::user::{UpdatePassword, UserProfile, new_user};

verus! {

pub open spec fn greeting_text() -> Seq<char> {
    "Hello Bro"@
}

pub open spec fn updated_text() -> Seq<char> {
    "User password updated"@
}

pub open spec fn deleted_text() -> Seq<char> {
    "User got deleted"@
}

pub open spec fn not_found_text() -> Seq<char> {
    "User not found"@
}

pub open spec fn no_password_text() -> Seq<char> {
    "Password not provided"@
}

/// The answer to a password update.
#[derive(Clone, Debug)]
pub enum UpdateResponse {
    /// The row was changed; it is returned as it now stands.
    Updated(UserProfile),
    UserNotFound,
    PasswordNotProvided,
}

impl UpdateResponse {
    pub open spec fn is_error_spec(&self) -> bool {
        !(self is Updated)
    }

    pub open spec fn text(&self) -> Seq<char> {
        match self {
            UpdateResponse::Updated(_) => updated_text(),
            UpdateResponse::UserNotFound => not_found_text(),
            UpdateResponse::PasswordNotProvided => no_password_text(),
        }
    }

    /// Whether the body carries an `error` rather than a `message`.
    pub fn is_error(&self) -> (r: bool)
        ensures
            r == self.is_error_spec(),
    {
        !matches!(self, UpdateResponse::Updated(_))
    }

    /// The text of the body's `message` or `error`.
    pub fn message(&self) -> (r: &'static str)
        ensures
            r@ == self.text(),
    {
        match self {
            UpdateResponse::Updated(_) => {
                proof { reveal_strlit("User password updated"); }
                "User password updated"
            },
            UpdateResponse::UserNotFound => {
                proof { reveal_strlit("User not found"); }
                "User not found"
            },
            UpdateResponse::PasswordNotProvided => {
                proof { reveal_strlit("Password not provided"); }
                "Password not provided"
            },
        }
    }
}

/// The answer to a delete.
#[derive(Clone, Copy, Debug, PartialEq, Eq, Structural)]
pub enum DeleteResponse {
    Deleted,
    UserNotFound,
}

impl DeleteResponse {
    pub open spec fn text(&self) -> Seq<char> {
        match self {
            DeleteResponse::Deleted => deleted_text(),
            DeleteResponse::UserNotFound => not_found_text(),
        }
    }

    /// Whether the body carries an `error` rather than a `message`.
    pub fn is_error(&self) -> (r: bool)
        ensures
            r == (*self == DeleteResponse::UserNotFound),
    {
        match self {
            DeleteResponse::Deleted => false,
            DeleteResponse::UserNotFound => true,
        }
    }

    /// The text of the body's `message` or `error`.
    pub fn message(&self) -> (r: &'static str)
        ensures
            r@ == self.text(),
    {
        match self {
            DeleteResponse::Deleted => {
                proof { reveal_strlit("User got deleted"); }
                "User got deleted"
            },
            DeleteResponse::UserNotFound => {
                proof { reveal_strlit("User not found"); }
                "User not found"
            },
        }
    }
}

/// The statement a password update runs: set `password` where the id is `userid`.
#[derive(Clone, Debug)]
pub struct PasswordChange {
    pub userid: i32,
    pub password: String,
}

/// The first step of a password update: answer at once, or run a statement.
#[derive(Clone, Debug)]
pub enum UpdateStep {
    Respond(UpdateResponse),
    Run(PasswordChange),
}

/// The liveness answer.
pub fn hello_greet() -> (r: &'static str)
    ensures
        r@ == greeting_text(),
{
    proof { reveal_strlit("Hello Bro"); }
    "Hello Bro"
}

/// Decides what a password update does before any statement runs: without a
/// password it answers at once; with one it sets that password on the path's id.
pub fn plan_update(id: i32, payload: UpdatePassword) -> (r: UpdateStep)
    ensures
        payload.password is None ==> r == UpdateStep::Respond(UpdateResponse::PasswordNotProvided),
        payload.password matches Some(p) ==> r == UpdateStep::Run(
            PasswordChange { userid: id, password: p },
        ),
{
    match payload.password {
        None => UpdateStep::Respond(UpdateResponse::PasswordNotProvided),
        Some(p) => UpdateStep::Run(PasswordChange { userid: id, password: p }),
    }
}

/// The answer to a password update from the row the statement returned.
pub fn update_response(rec: Option<UserProfile>) -> (r: UpdateResponse)
    ensures
        rec is None ==> r == UpdateResponse::UserNotFound,
        rec matches Some(u) ==> r == UpdateResponse::Updated(u),
{
    match rec {
        None => UpdateResponse::UserNotFound,
        Some(u) => UpdateResponse::Updated(u),
    }
}

/// The answer to a delete from the number of rows it affected.
pub fn delete_response(rows_affected: u64) -> (r: DeleteResponse)
    ensures
        r == (if rows_affected > 0 { DeleteResponse::Deleted } else { DeleteResponse::UserNotFound }),
{
    if rows_affected > 0 {
        DeleteResponse::Deleted
    } else {
        DeleteResponse::UserNotFound
    }
}

/// Lists every user.
pub fn fetch_whole_db(db: &UserStore) -> (r: Vec<UserProfile>)
    ensures
        rows_of(r@) == db@.rows,
{
    db.fetch_all()
}

/// Registers a user from the payload's email and password, ignoring its id,
/// and returns the stored row with its generated id.
pub fn register_user(db: &mut UserStore, payload: UserProfile) -> (r: Result<UserProfile, StoreError>)
    requires
        old(db).wf(),
    ensures
        final(db).wf(),
        r is Ok <==> old(db)@.can_insert(),
        r matches Ok(u) ==> u.row() == old(db)@.inserted_row(payload.email@, payload.password@)
            && final(db)@ == old(db)@.insert(payload.email@, payload.password@),
        r is Err ==> final(db)@ == old(db)@,
{
    db.insert(new_user(payload))
}

/// Handles a password update of the user with the given id.
pub fn update_user(db: &mut UserStore, id: i32, payload: UpdatePassword) -> (r: UpdateResponse)
    requires
        old(db).wf(),
    ensures
        final(db).wf(),
        payload.password is None ==> r == UpdateResponse::PasswordNotProvided
            && final(db)@ == old(db)@,
        payload.password matches Some(p) ==> {
            &&& final(db)@ == old(db)@.update(id as int, p@)
            &&& (r is UserNotFound <==> !old(db)@.has(id as int))
            &&& (r matches UpdateResponse::Updated(u) ==> u.row() == old(db)@.updated_row(id as int, p@))
            &&& !(r is PasswordNotProvided)
        },
{
    match plan_update(id, payload) {
        UpdateStep::Respond(resp) => resp,
        UpdateStep::Run(change) => {
            let rec = db.update_password(change.userid, change.password);
            update_response(rec)
        },
    }
}

/// Handles a delete of the user with the given id.
pub fn delete_registered_user(db: &mut UserStore, id: i32) -> (r: DeleteResponse)
    requires
        old(db).wf(),
    ensures
        final(db).wf(),
        final(db)@ == old(db)@.delete(id as int),
        r == (if old(db)@.has(id as int) { DeleteResponse::Deleted } else { DeleteResponse::UserNotFound }),
{
    let n = db.delete(id);
    delete_response(n)
}

} // verus!
