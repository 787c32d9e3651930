use user_service::errors::ServiceError;
use user_service::handlers::{add_user, delete_user, get_user_by_id, get_users};
use user_service::models::InputUser;
use user_service::store::{StoreError, UserStore};

fn input(name: &str, email: &str) -> InputUser {
    InputUser { name: String::from(name), email: String::from(email) }
}

#[test]
fn create_returns_novel_id_and_server_timestamp() {
    let mut db = UserStore::new();
    let first = db.db_add_user(input("Ada", "ada@example.com"), 42);
    assert_eq!(first.id, 1);
    assert_eq!(first.created_at, 42);
    let second = db.db_add_user(input("Grace", "grace@example.com"), 43);
    assert_eq!(second.id, 2);
    assert_ne!(second.id, first.id);
    assert_eq!(second.created_at, 43);
}

#[test]
fn deleted_id_is_never_assigned_again() {
    let mut db = UserStore::new();
    let first = db.db_add_user(input("Ada", "ada@example.com"), 1);
    assert!(db.db_delete_user(first.id).is_ok());
    let second = db.db_add_user(input("Grace", "grace@example.com"), 2);
    assert_ne!(second.id, first.id);
}

#[test]
fn get_returns_last_written_record() {
    let mut db = UserStore::new();
    let ada = add_user(&mut db, input("Ada", "ada@example.com")).unwrap();
    let grace = add_user(&mut db, input("Grace", "grace@example.com")).unwrap();
    let fetched = get_user_by_id(&db, ada.id).unwrap();
    assert_eq!(fetched.id, ada.id);
    assert_eq!(fetched.name, "Ada");
    assert_eq!(fetched.email, "ada@example.com");
    assert_eq!(fetched.created_at, ada.created_at);
    let fetched = get_user_by_id(&db, grace.id).unwrap();
    assert_eq!(fetched.name, "Grace");
}

#[test]
fn get_missing_id_is_not_found() {
    let mut db = UserStore::new();
    assert!(matches!(get_user_by_id(&db, 7), Err(ServiceError::NotFound)));
    let ada = add_user(&mut db, input("Ada", "ada@example.com")).unwrap();
    assert!(delete_user(&mut db, ada.id).is_ok());
    assert!(matches!(get_user_by_id(&db, ada.id), Err(ServiceError::NotFound)));
}

#[test]
fn delete_existing_then_get_is_not_found() {
    let mut db = UserStore::new();
    let ada = add_user(&mut db, input("Ada", "ada@example.com")).unwrap();
    assert!(matches!(delete_user(&mut db, ada.id), Ok(())));
    assert!(matches!(get_user_by_id(&db, ada.id), Err(ServiceError::NotFound)));
}

#[test]
fn delete_missing_id_is_not_found_not_success() {
    let mut db = UserStore::new();
    assert!(matches!(delete_user(&mut db, 5), Err(ServiceError::NotFound)));
    let ada = add_user(&mut db, input("Ada", "ada@example.com")).unwrap();
    assert!(matches!(delete_user(&mut db, ada.id), Ok(())));
    assert!(matches!(delete_user(&mut db, ada.id), Err(ServiceError::NotFound)));
    assert!(matches!(db.db_delete_user(99), Err(StoreError::NotFound)));
}

#[test]
fn list_length_tracks_stored_users() {
    let mut db = UserStore::new();
    assert_eq!(get_users(&db).unwrap().len(), 0);
    let ada = add_user(&mut db, input("Ada", "ada@example.com")).unwrap();
    let _grace = add_user(&mut db, input("Grace", "grace@example.com")).unwrap();
    assert_eq!(get_users(&db).unwrap().len(), 2);
    delete_user(&mut db, ada.id).unwrap();
    assert_eq!(get_users(&db).unwrap().len(), 1);
    let listed = get_users(&db).unwrap();
    assert_eq!(listed[0].name, "Grace");
}

#[test]
fn post_then_get_scenario() {
    let mut db = UserStore::new();
    let created = add_user(&mut db, input("Ada", "ada@example.com")).unwrap();
    assert_eq!(created.name, "Ada");
    assert_eq!(created.email, "ada@example.com");
    assert!(created.id >= 1);
    let fetched = get_user_by_id(&db, created.id).unwrap();
    assert_eq!(fetched.id, created.id);
    assert_eq!(fetched.name, created.name);
    assert_eq!(fetched.email, created.email);
    assert_eq!(fetched.created_at, created.created_at);
}

#[test]
fn error_response_statuses_and_bodies() {
    let r = ServiceError::InternalServerError.error_response();
    assert_eq!(r.status, 500);
    assert_eq!(r.body, "Internal Server Error, Please try later");

    let r = ServiceError::BadRequest(String::from("missing email")).error_response();
    assert_eq!(r.status, 400);
    assert_eq!(r.body, "missing email");

    let r = ServiceError::JWKSFetchError.error_response();
    assert_eq!(r.status, 500);
    assert_eq!(r.body, "Could not fetch JWKS");

    let r = ServiceError::NotFound.error_response();
    assert_eq!(r.status, 404);
    assert_eq!(r.body, "Not Found");
}
