use vstd::prelude::*;
use crate::error::ApiError;
use crate::identifier::{id_bytes_of, id_view, is_id_text, Identifier};
use crate::mongodb_repo::MongoRepo;
use crate::product::Product;
use crate::user_api::{created_id, delete_response, refetched, update_outcome};

verus! {

/// The body of a delete request: the hex form of the product's identifier.
pub struct DeleteMessage {
    pub _id: String,
}

/// Stores the payload's fields as a new product, whatever identifier it carries,
/// and answers with the stored record. Every failure here is a database error.
pub fn create_product(db: &MongoRepo, new_product: &Product) -> (r: Result<Product, ApiError>)
    ensures
        r matches Ok(u) ==> u.id is Some,
        r matches Err(e) ==> e == ApiError::Database,
{
    let data = new_product.without_id();
    match created_id(db.create_product(&data)) {
        Ok(id) => refetched(db.get_product(&id)),
        Err(e) => Err(e),
    }
}

/// Looks a product up by the hex form of its identifier.
pub fn get_product(db: &MongoRepo, id: &str) -> (r: Result<Product, ApiError>)
    ensures
        r == Err::<Product, ApiError>(ApiError::ClientInput) <==> !is_id_text(id@),
        r matches Ok(u) ==> id_view(u.id) == Some(id_bytes_of(id@)),
        r matches Err(e) ==> e == ApiError::ClientInput || e == ApiError::NotFound || e
            == ApiError::Database,
{
    match Identifier::parse(id) {
        Ok(obj_id) => db.get_product(&obj_id),
        Err(e) => Err(e),
    }
}

/// Sets every field of the payload on the product with its identifier, and
/// answers with the stored record.
pub fn update_product(db: &MongoRepo, product: &Product) -> (r: Result<Product, ApiError>)
    ensures
        r == Err::<Product, ApiError>(ApiError::ClientInput) <==> product.id is None,
        r matches Ok(u) ==> id_view(u.id) == id_view(product.id),
        r matches Err(e) ==> e == ApiError::ClientInput || e == ApiError::NotFound || e
            == ApiError::Database,
{
    match db.update_product(product) {
        Ok(matched) => match update_outcome(matched) {
            Ok(()) => match &product.id {
                Some(id) => refetched(db.get_product(id)),
                None => Err(ApiError::ClientInput),
            },
            Err(e) => Err(e),
        },
        Err(e) => Err(e),
    }
}

/// Removes the product named by the message; answers `Ok` whether or not a record
/// was there.
pub fn delete_product(db: &MongoRepo, msg: &DeleteMessage) -> (r: Result<String, ApiError>)
    ensures
        r == Err::<String, ApiError>(ApiError::ClientInput) <==> !is_id_text(msg._id@),
        r matches Ok(s) ==> s@ == "Ok"@,
        r matches Err(e) ==> e == ApiError::ClientInput || e == ApiError::Database,
{
    match Identifier::parse(msg._id.as_str()) {
        Ok(obj_id) => delete_response(db.delete_product(&obj_id)),
        Err(e) => Err(e),
    }
}

/// Every stored product, or a database error.
pub fn get_all_product(db: &MongoRepo) -> (r: Result<Vec<Product>, ApiError>)
    ensures
        r matches Err(e) ==> e == ApiError::Database,
{
    db.get_all_products()
}

} // verus!
