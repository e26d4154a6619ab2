use mongo_crud::error::ApiError;
use mongo_crud::identifier::Identifier;
use mongo_crud::mongodb_repo::{
    id_filter, same_bytes, set_update, user_from_lookup, users_from_listing, users_of_documents, MongoRepo,
};
use mongo_crud::user::{User, UserWire};
use mongo_crud::user_api::{
    created_id, delete_response, delete_user, get_user, refetched, update_outcome, update_user, DeleteMessage,
};
use mongodb::bson::oid::ObjectId;
use mongodb::bson::{Bson, Document};

fn alice(id: Option<Identifier>) -> User {
    User { id, name: "Alice".to_string(), location: "Paris".to_string(), title: "Engineer".to_string() }
}

fn stored(user: &User, id: [u8; 12]) -> Document {
    let mut d = user.to_document();
    d.insert("_id", ObjectId::from_bytes(id));
    d
}

#[test]
fn user_wire_round_trip_with_id() {
    let u = alice(Some(Identifier::from_bytes([7; 12])));
    let w = u.to_wire();
    assert_eq!(w._id, Some("070707070707070707070707".to_string()));
    assert_eq!(User::from_wire(&w), Ok(u));
}

#[test]
fn user_wire_round_trip_without_id() {
    let u = alice(None);
    let w = u.to_wire();
    assert_eq!(w._id, None);
    assert_eq!(User::from_wire(&w), Ok(u));
}

#[test]
fn user_wire_with_bad_id_is_client_error() {
    let w = UserWire {
        _id: Some("nope".to_string()),
        name: "A".to_string(),
        location: "B".to_string(),
        title: "C".to_string(),
    };
    assert_eq!(User::from_wire(&w), Err(ApiError::ClientInput));
}

#[test]
fn user_document_has_no_id() {
    let d = alice(Some(Identifier::from_bytes([1; 12]))).to_document();
    assert!(!d.contains_key("_id"));
    assert_eq!(d.len(), 3);
    assert_eq!(d.get_str("name"), Ok("Alice"));
    assert_eq!(User::from_document(&d), Ok(alice(None)));
}

#[test]
fn stored_user_reads_back_with_its_id() {
    let d = stored(&alice(None), [3; 12]);
    assert_eq!(User::from_document(&d), Ok(alice(Some(Identifier::from_bytes([3; 12])))));
}

#[test]
fn malformed_stored_user_is_database_error() {
    let mut d = alice(None).to_document();
    d.remove("title");
    assert_eq!(User::from_document(&d), Err(ApiError::Database));
    let mut e = alice(None).to_document();
    e.insert("_id", "not an object id");
    assert_eq!(User::from_document(&e), Err(ApiError::Database));
}

#[test]
fn without_id_drops_identifier() {
    let u = alice(Some(Identifier::from_bytes([9; 12])));
    assert_eq!(u.without_id(), alice(None));
}

#[test]
fn filter_and_update_documents() {
    let f = id_filter(&Identifier::from_bytes([5; 12]));
    assert_eq!(f.len(), 1);
    assert_eq!(f.get_object_id("_id"), Ok(ObjectId::from_bytes([5; 12])));
    let u = set_update(alice(None).to_document());
    assert_eq!(u.len(), 1);
    assert_eq!(u.get_document("$set").unwrap(), &alice(None).to_document());
}

#[test]
fn lookup_without_document_is_not_found() {
    let id = Identifier::from_bytes([4; 12]);
    assert_eq!(user_from_lookup(&id, None), Err(ApiError::NotFound));
    assert_eq!(ApiError::NotFound.status(), 404);
    let d = stored(&alice(None), [4; 12]);
    assert_eq!(user_from_lookup(&id, Some(d)), Ok(alice(Some(id))));
}

#[test]
fn lookup_of_another_identifier_is_database_error() {
    let d = stored(&alice(None), [4; 12]);
    assert_eq!(user_from_lookup(&Identifier::from_bytes([5; 12]), Some(d)), Err(ApiError::Database));
    let no_id = alice(None).to_document();
    assert_eq!(user_from_lookup(&Identifier::from_bytes([4; 12]), Some(no_id)), Err(ApiError::Database));
}

#[test]
fn listing_outcomes() {
    assert_eq!(users_from_listing(Err(ApiError::Database)), Err(ApiError::Database));
    let docs = vec![stored(&alice(None), [1; 12])];
    assert_eq!(users_from_listing(Ok(docs)), Ok(vec![alice(Some(Identifier::from_bytes([1; 12])))]));
    let mut bad = alice(None).to_document();
    bad.remove("name");
    assert_eq!(users_from_listing(Ok(vec![bad])), Err(ApiError::Database));
}

#[test]
fn create_steps() {
    let id = Identifier::from_bytes([8; 12]);
    assert_eq!(created_id(Ok(Some(id))), Ok(id));
    assert_eq!(created_id(Ok(None)), Err(ApiError::Database));
    assert_eq!(created_id(Err(ApiError::Database)), Err(ApiError::Database));
    assert_eq!(refetched(Ok(alice(Some(id)))), Ok(alice(Some(id))));
    assert_eq!(refetched::<User>(Err(ApiError::NotFound)), Err(ApiError::Database));
}

#[test]
fn delete_steps() {
    assert_eq!(delete_response(Ok(0)), Ok("Ok".to_string()));
    assert_eq!(delete_response(Ok(1)), Ok("Ok".to_string()));
    assert_eq!(delete_response(Err(ApiError::Database)), Err(ApiError::Database));
}

#[test]
fn same_bytes_compares_every_byte() {
    let mut b = [3u8; 12];
    assert!(same_bytes(&[3; 12], &b));
    b[11] = 4;
    assert!(!same_bytes(&[3; 12], &b));
}

#[test]
fn listing_reads_each_document_once_in_order() {
    let bob = User { id: None, name: "Bob".to_string(), location: "Oslo".to_string(), title: "Chef".to_string() };
    let docs = vec![stored(&alice(None), [1; 12]), stored(&bob, [2; 12])];
    let users = users_of_documents(&docs).unwrap();
    assert_eq!(users.len(), 2);
    assert_eq!(users[0], alice(Some(Identifier::from_bytes([1; 12]))));
    assert_eq!(users[1].name, "Bob");
    let mut bad = Document::new();
    bad.insert("name", Bson::Int32(3));
    assert_eq!(users_of_documents(&vec![stored(&bob, [2; 12]), bad]), Err(ApiError::Database));
    assert_eq!(users_of_documents(&vec![]), Ok(vec![]));
}

#[test]
fn update_outcome_by_matched_count() {
    assert_eq!(update_outcome(1), Ok(()));
    assert_eq!(update_outcome(0), Err(ApiError::NotFound));
    assert_eq!(update_outcome(0).unwrap_err().status(), 404);
    assert_eq!(update_outcome(2), Err(ApiError::NotFound));
}

#[test]
fn init_rejects_bad_connection_string() {
    assert_eq!(MongoRepo::init("not a connection string").err(), Some(ApiError::Startup));
}

#[test]
fn handlers_reject_client_errors_before_the_store() {
    let db = MongoRepo::init("mongodb://127.0.0.1:1").unwrap();
    assert_eq!(get_user(&db, "zzz"), Err(ApiError::ClientInput));
    assert_eq!(get_user(&db, "zzz").unwrap_err().status(), 400);
    let msg = DeleteMessage { _id: "123".to_string() };
    assert_eq!(delete_user(&db, &msg), Err(ApiError::ClientInput));
    assert_eq!(update_user(&db, &alice(None)), Err(ApiError::ClientInput));
    assert_eq!(db.update_user(&alice(None)), Err(ApiError::ClientInput));
}
