//! The request handlers: each performs exactly one store operation and maps
//! the store's outcome onto the service's error surface.

use vstd::prelude::*;
use crate::errors::ServiceError;
use crate::models::{InputUser, User};
use crate::store::{StoreError, UserStore};

verus! {

/// Relies on chrono's `Local::now`: the server's current clock reading,
/// carried as seconds since the Unix epoch. Nothing is assumed of the value;
/// the contracts downstream hold whatever the clock returns.
#[verifier::external_body]
fn now_timestamp() -> i64 {
    chrono::Local::now().naive_local().and_utc().timestamp()
}

/// Lists every stored user: one record per stored id, in insertion order.
pub fn get_users(db: &UserStore) -> (r: Result<Vec<User>, ServiceError>)
    requires
        db.wf(),
    ensures
        r matches Ok(v) && v@.map_values(|u: User| u@) == db.records(),
        r matches Ok(v) && v@.len() == db@.dom().len(),
{
    Ok(db.get_all_users())
}

/// Fetches the record last written under `user_id`; `NotFound` exactly when
/// the store holds no such id.
pub fn get_user_by_id(db: &UserStore, user_id: i32) -> (r: Result<User, ServiceError>)
    requires
        db.wf(),
    ensures
        db@.dom().contains(user_id as int) ==> (r matches Ok(u) && u@ == db@[user_id as int]),
        !db@.dom().contains(user_id as int) ==> (r matches Err(e) && e is NotFound),
{
    match db.db_get_user_by_id(user_id) {
        Ok(u) => Ok(u),
        Err(StoreError::NotFound) => Err(ServiceError::NotFound),
    }
}

/// Creates a user from the client-supplied name and email. The store assigns
/// an id it has never held before, and the server stamps the creation time —
/// the input carries neither. Returns the record as stored.
pub fn add_user(db: &mut UserStore, new_user: InputUser) -> (r: Result<User, ServiceError>)
    requires
        old(db).wf(),
        old(db).next_id_spec() < i32::MAX as int,
    ensures
        final(db).wf(),
        r matches Ok(u) && {
            &&& u.id as int == old(db).next_id_spec()
            &&& !old(db)@.dom().contains(u.id as int)
            &&& u.name@ == new_user.name@
            &&& u.email@ == new_user.email@
            &&& final(db)@ == old(db)@.insert(u.id as int, u@)
            &&& final(db)@.dom().contains(u.id as int) && final(db)@[u.id as int] == u@
        },
{
    let created_at = now_timestamp();
    let u = db.db_add_user(new_user, created_at);
    Ok(u)
}

/// Deletes the record under `user_id`; `NotFound` — never a success — exactly
/// when the store holds no such id. After the call the id is gone either way.
pub fn delete_user(db: &mut UserStore, user_id: i32) -> (r: Result<(), ServiceError>)
    requires
        old(db).wf(),
    ensures
        final(db).wf(),
        old(db)@.dom().contains(user_id as int) ==> r is Ok && final(db)@ == old(db)@.remove(
            user_id as int,
        ),
        !old(db)@.dom().contains(user_id as int) ==> (r matches Err(e) && e is NotFound)
            && *final(db) == *old(db),
        !final(db)@.dom().contains(user_id as int),
{
    match db.db_delete_user(user_id) {
        Ok(()) => Ok(()),
        Err(StoreError::NotFound) => Err(ServiceError::NotFound),
    }
}

} // verus!
