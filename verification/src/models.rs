//! The user records that the store holds and the payload a client submits.

use vstd::prelude::*;

verus! {

/// The mathematical content of a stored user record.
pub struct UserView {
    pub id: int,
    pub name: Seq<char>,
    pub email: Seq<char>,
    pub created_at: int,
}

/// A stored user record. `id` is assigned by the store, unique and immutable;
/// `created_at` is set by the server at insertion time, never by the client.
/// The timestamp is carried as seconds since the Unix epoch.
#[derive(Debug)]
pub struct User {
    pub id: i32,
    pub name: String,
    pub email: String,
    pub created_at: i64,
}

impl View for User {
    type V = UserView;

    open spec fn view(&self) -> UserView {
        UserView {
            id: self.id as int,
            name: self.name@,
            email: self.email@,
            created_at: self.created_at as int,
        }
    }
}

impl Clone for User {
    fn clone(&self) -> (r: User)
        ensures
            r == *self,
    {
        User {
            id: self.id,
            name: self.name.clone(),
            email: self.email.clone(),
            created_at: self.created_at,
        }
    }
}

/// What a client submits to create a user: a name and an email, nothing more.
/// In particular no id and no timestamp can be supplied.
pub struct InputUser {
    pub name: String,
    pub email: String,
}

/// A row as handed to the store for insertion: the client-supplied fields plus
/// the server-chosen creation time.
pub struct NewUser<'a> {
    pub name: &'a str,
    pub email: &'a str,
    pub created_at: i64,
}

} // verus!
