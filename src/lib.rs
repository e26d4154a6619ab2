//! A document-store CRUD service for users and products: identifiers, the
//! entities and their wire form, the repository over a MongoDB collection, and
//! the request decisions that turn repository outcomes into HTTP statuses.

pub mod document;
pub mod error;
pub mod identifier;
pub mod mongodb_repo;
pub mod product;
pub mod product_api;
pub mod user;
pub mod user_api;
