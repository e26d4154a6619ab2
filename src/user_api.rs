use vstd::prelude::*;
use crate::error::ApiError;
use crate::identifier::{id_bytes_of, id_view, is_id_text, Identifier};
use crate::mongodb_repo::MongoRepo;
use crate::user::User;

verus! {

/// The body of a delete request: the hex form of the user's identifier.
pub struct DeleteMessage {
    pub _id: String,
}

/// What an update answers for the number of records it matched: exactly one
/// is a success, anything else means no such record.
pub fn update_outcome(matched_count: u64) -> (r: Result<(), ApiError>)
    ensures
        r is Ok <==> matched_count == 1,
        r matches Err(e) ==> e == ApiError::NotFound,
{
    if matched_count == 1 {
        Ok(())
    } else {
        Err(ApiError::NotFound)
    }
}

/// The identifier that an insert assigned; an insert that failed, or that gave
/// back no object id, is a database error.
pub fn created_id(inserted: Result<Option<Identifier>, ApiError>) -> (r: Result<Identifier, ApiError>)
    ensures
        inserted matches Ok(Some(i)) ==> r == Ok::<Identifier, ApiError>(i),
        !(inserted matches Ok(Some(_))) ==> r == Err::<Identifier, ApiError>(ApiError::Database),
{
    match inserted {
        Ok(Some(i)) => Ok(i),
        _ => Err(ApiError::Database),
    }
}

/// The answer after a re-fetch: the record read back, or a database error
/// whatever went wrong.
pub fn refetched<T>(fetched: Result<T, ApiError>) -> (r: Result<T, ApiError>)
    ensures
        fetched matches Ok(x) ==> r == Ok::<T, ApiError>(x),
        fetched is Err ==> r == Err::<T, ApiError>(ApiError::Database),
{
    match fetched {
        Ok(x) => Ok(x),
        Err(_) => Err(ApiError::Database),
    }
}

/// The answer to a delete: `Ok` whatever the number removed; a failure is
/// handed on.
pub fn delete_response(deleted: Result<u64, ApiError>) -> (r: Result<String, ApiError>)
    ensures
        deleted is Ok ==> r is Ok && r->Ok_0@ == "Ok"@,
        deleted matches Err(e) ==> r == Err::<String, ApiError>(e),
{
    match deleted {
        Ok(_) => Ok("Ok".to_owned()),
        Err(e) => Err(e),
    }
}

/// Stores the payload's fields as a new user, whatever identifier it carries,
/// and answers with the stored record. Every failure here is a database error.
pub fn create_user(db: &MongoRepo, new_user: &User) -> (r: Result<User, ApiError>)
    ensures
        r matches Ok(u) ==> u.id is Some,
        r matches Err(e) ==> e == ApiError::Database,
{
    let data = new_user.without_id();
    match created_id(db.create_user(&data)) {
        Ok(id) => refetched(db.get_user(&id)),
        Err(e) => Err(e),
    }
}

/// Looks a user up by the hex form of its identifier.
pub fn get_user(db: &MongoRepo, id: &str) -> (r: Result<User, ApiError>)
    ensures
        r == Err::<User, ApiError>(ApiError::ClientInput) <==> !is_id_text(id@),
        r matches Ok(u) ==> id_view(u.id) == Some(id_bytes_of(id@)),
        r matches Err(e) ==> e == ApiError::ClientInput || e == ApiError::NotFound || e
            == ApiError::Database,
{
    match Identifier::parse(id) {
        Ok(obj_id) => db.get_user(&obj_id),
        Err(e) => Err(e),
    }
}

/// Sets every field of the payload on the user with its identifier, and
/// answers with the stored record.
pub fn update_user(db: &MongoRepo, user: &User) -> (r: Result<User, ApiError>)
    ensures
        r == Err::<User, ApiError>(ApiError::ClientInput) <==> user.id is None,
        r matches Ok(u) ==> id_view(u.id) == id_view(user.id),
        r matches Err(e) ==> e == ApiError::ClientInput || e == ApiError::NotFound || e
            == ApiError::Database,
{
    match db.update_user(user) {
        Ok(matched) => match update_outcome(matched) {
            Ok(()) => match &user.id {
                Some(id) => refetched(db.get_user(id)),
                None => Err(ApiError::ClientInput),
            },
            Err(e) => Err(e),
        },
        Err(e) => Err(e),
    }
}

/// Removes the user named by the message; answers `Ok` whether or not a record
/// was there.
pub fn delete_user(db: &MongoRepo, msg: &DeleteMessage) -> (r: Result<String, ApiError>)
    ensures
        r == Err::<String, ApiError>(ApiError::ClientInput) <==> !is_id_text(msg._id@),
        r matches Ok(s) ==> s@ == "Ok"@,
        r matches Err(e) ==> e == ApiError::ClientInput || e == ApiError::Database,
{
    match Identifier::parse(msg._id.as_str()) {
        Ok(obj_id) => delete_response(db.delete_user(&obj_id)),
        Err(e) => Err(e),
    }
}

/// Every stored user, or a database error.
pub fn get_all_user(db: &MongoRepo) -> (r: Result<Vec<User>, ApiError>)
    ensures
        r matches Err(e) ==> e == ApiError::Database,
{
    db.get_all_users()
}

} // verus!
