use vstd::prelude::*;
use mongodb::bson::Document;
use mongodb::sync::{Client, Collection, Cursor, Database};
use crate::document::{
    bson_fields, bson_object_id, document_value, fields_of, new_document, object_id_value, put_field,
};
use crate::error::ApiError;
use crate::identifier::{id_view, Identifier};
use crate::product::{product_of_fields, Product};
use crate::user::{user_of_fields, User};

verus! {

#[verifier::external_type_specification]
#[verifier::external_body]
pub struct ExClient(Client);

#[verifier::external_type_specification]
#[verifier::external_body]
pub struct ExDatabase(Database);

#[verifier::external_type_specification]
#[verifier::external_body]
#[verifier::reject_recursive_types(T)]
pub struct ExCollection<T>(Collection<T>);

#[verifier::external_type_specification]
#[verifier::external_body]
#[verifier::reject_recursive_types(T)]
pub struct ExCursor<T>(Cursor<T>);

#[verifier::external_type_specification]
#[verifier::external_body]
pub struct ExDbError(mongodb::error::Error);

/// What `Database::name` gives.
pub uninterp spec fn database_name(db: Database) -> Seq<char>;

/// What `Collection::name` gives.
pub uninterp spec fn collection_name(c: Collection<Document>) -> Seq<char>;

/// What `Collection::namespace` gives as the database's name.
pub uninterp spec fn collection_db(c: Collection<Document>) -> Seq<char>;

/// Relies on the blocking `Client::with_uri_str`, which parses the connection
/// string and sets up the client.
#[verifier::external_body]
fn connect(uri: &str) -> (r: Result<Client, mongodb::error::Error>) {
    Client::with_uri_str(uri)
}

/// Relies on `Client::database`: a handle on the named database.
#[verifier::external_body]
fn open_database(client: &Client, name: &str) -> (r: Database)
    ensures
        database_name(r) == name@,
{
    client.database(name)
}

/// Relies on `Database::collection`: a handle on the named collection of that
/// database, with documents as items.
#[verifier::external_body]
fn open_collection(db: &Database, name: &str) -> (r: Collection<Document>)
    ensures
        collection_name(r) == name@,
        collection_db(r) == database_name(*db),
{
    db.collection::<Document>(name)
}

/// Relies on `Collection::insert_one`: the identifier that the store gave the
/// new document, where it is an object id.
#[verifier::external_body]
fn insert_one(c: &Collection<Document>, d: Document) -> (r: Result<
    Option<[u8; 12]>,
    mongodb::error::Error,
>) {
    c.insert_one(d, None).map(|res| res.inserted_id.as_object_id().map(|o| o.bytes()))
}

/// Relies on `Collection::find_one`: the first document that the filter
/// matches, if any.
#[verifier::external_body]
fn find_one(c: &Collection<Document>, filter: Document) -> (r: Result<
    Option<Document>,
    mongodb::error::Error,
>) {
    c.find_one(filter, None)
}

/// Relies on `Collection::update_one`: the number of documents that the filter
/// matched.
#[verifier::external_body]
fn update_one(c: &Collection<Document>, filter: Document, update: Document) -> (r: Result<
    u64,
    mongodb::error::Error,
>) {
    c.update_one(filter, update, None).map(|res| res.matched_count)
}

/// Relies on `Collection::delete_one`: the number of documents removed.
#[verifier::external_body]
fn delete_one(c: &Collection<Document>, filter: Document) -> (r: Result<
    u64,
    mongodb::error::Error,
>) {
    c.delete_one(filter, None).map(|res| res.deleted_count)
}

/// Relies on `Collection::find` with no filter: a cursor over every document.
#[verifier::external_body]
fn find_all(c: &Collection<Document>) -> (r: Result<Cursor<Document>, mongodb::error::Error>) {
    c.find(None, None)
}

/// Relies on the `Iterator` impl of `Cursor`, collected into a `Result`: the
/// documents in order, or the first failure, after which nothing more is read.
#[verifier::external_body]
fn drain(cursor: Cursor<Document>) -> (r: Result<Vec<Document>, mongodb::error::Error>) {
    cursor.collect::<Result<Vec<Document>, mongodb::error::Error>>()
}

/// Whether two identifiers' bytes are the same.
pub fn same_bytes(a: &[u8; 12], b: &[u8; 12]) -> (r: bool)
    ensures
        r == (a@ == b@),
{
    let mut i: usize = 0;
    while i < 12
        invariant
            i <= 12,
            forall|j: int| 0 <= j < i ==> a@[j] == b@[j],
        decreases 12 - i,
    {
        if a[i] != b[i] {
            return false;
        }
        i = i + 1;
    }
    assert(a@ =~= b@);
    true
}

/// The filter that selects the record with the given identifier.
pub fn id_filter(id: &Identifier) -> (r: Document)
    ensures
        fields_of(r).dom() == set!["_id"@],
        bson_object_id(fields_of(r)["_id"@]) == Some(id.bytes@),
{
    let mut d = new_document();
    put_field(&mut d, "_id", object_id_value(id.bytes));
    proof {
        assert(fields_of(d).dom() =~= set!["_id"@]);
    }
    d
}

/// The field-level update that sets each field of `fields`.
pub fn set_update(fields: Document) -> (r: Document)
    ensures
        fields_of(r).dom() == set!["$set"@],
        bson_fields(fields_of(r)["$set"@]) == Some(fields_of(fields)),
{
    let mut d = new_document();
    put_field(&mut d, "$set", document_value(fields));
    proof {
        assert(fields_of(d).dom() =~= set!["$set"@]);
    }
    d
}

/// The outcome of a lookup by identifier: no document is a not-found error;
/// a document that does not describe a user, or carries another identifier,
/// is a database error.
pub fn user_from_lookup(id: &Identifier, found: Option<Document>) -> (r: Result<User, ApiError>)
    ensures
        found is None ==> r == Err::<User, ApiError>(ApiError::NotFound),
        found matches Some(d) ==> match user_of_fields(fields_of(d)) {
            Some(m) => if m.id == Some(id.bytes@) {
                r is Ok && r->Ok_0@ == m
            } else {
                r == Err::<User, ApiError>(ApiError::Database)
            },
            None => r == Err::<User, ApiError>(ApiError::Database),
        },
{
    match found {
        None => Err(ApiError::NotFound),
        Some(d) => match User::from_document(&d) {
            Ok(x) => match &x.id {
                Some(stored) => if same_bytes(&stored.bytes, &id.bytes) {
                    Ok(x)
                } else {
                    Err(ApiError::Database)
                },
                None => Err(ApiError::Database),
            },
            Err(e) => Err(e),
        },
    }
}

/// The outcome of a listing: a failure of the store is a database error, and
/// otherwise each document is read in order.
pub fn users_from_listing(listed: Result<Vec<Document>, ApiError>) -> (r: Result<Vec<User>, ApiError>)
    ensures
        listed is Err ==> r == Err::<Vec<User>, ApiError>(ApiError::Database),
        listed matches Ok(docs) ==> (r is Ok <==> forall|i: int|
            0 <= i < docs@.len() ==> (#[trigger] user_of_fields(fields_of(docs@[i]))) is Some),
        listed matches Ok(docs) ==> (r matches Ok(xs) ==> xs@.len() == docs@.len() && forall|i: int|
            0 <= i < docs@.len() ==> Some((#[trigger] xs@[i])@) == user_of_fields(fields_of(docs@[i]))),
        r matches Err(e) ==> e == ApiError::Database,
{
    match listed {
        Ok(docs) => users_of_documents(&docs),
        Err(_) => Err(ApiError::Database),
    }
}

/// The outcome of a lookup by identifier: no document is a not-found error;
/// a document that does not describe a product, or carries another identifier,
/// is a database error.
pub fn product_from_lookup(id: &Identifier, found: Option<Document>) -> (r: Result<Product, ApiError>)
    ensures
        found is None ==> r == Err::<Product, ApiError>(ApiError::NotFound),
        found matches Some(d) ==> match product_of_fields(fields_of(d)) {
            Some(m) => if m.id == Some(id.bytes@) {
                r is Ok && r->Ok_0@ == m
            } else {
                r == Err::<Product, ApiError>(ApiError::Database)
            },
            None => r == Err::<Product, ApiError>(ApiError::Database),
        },
{
    match found {
        None => Err(ApiError::NotFound),
        Some(d) => match Product::from_document(&d) {
            Ok(x) => match &x.id {
                Some(stored) => if same_bytes(&stored.bytes, &id.bytes) {
                    Ok(x)
                } else {
                    Err(ApiError::Database)
                },
                None => Err(ApiError::Database),
            },
            Err(e) => Err(e),
        },
    }
}

/// The outcome of a listing: a failure of the store is a database error, and
/// otherwise each document is read in order.
pub fn products_from_listing(listed: Result<Vec<Document>, ApiError>) -> (r: Result<Vec<Product>, ApiError>)
    ensures
        listed is Err ==> r == Err::<Vec<Product>, ApiError>(ApiError::Database),
        listed matches Ok(docs) ==> (r is Ok <==> forall|i: int|
            0 <= i < docs@.len() ==> (#[trigger] product_of_fields(fields_of(docs@[i]))) is Some),
        listed matches Ok(docs) ==> (r matches Ok(xs) ==> xs@.len() == docs@.len() && forall|i: int|
            0 <= i < docs@.len() ==> Some((#[trigger] xs@[i])@) == product_of_fields(fields_of(docs@[i]))),
        r matches Err(e) ==> e == ApiError::Database,
{
    match listed {
        Ok(docs) => products_of_documents(&docs),
        Err(_) => Err(ApiError::Database),
    }
}

/// The single point of access to the store: one collection per entity type.
pub struct MongoRepo {
    pub users: Collection<Document>,
    pub products: Collection<Document>,
}

impl MongoRepo {
    /// Sets up the session on the database `rustDB` of the given connection
    /// string; a string that the client rejects is a startup error.
    pub fn init(uri: &str) -> (r: Result<MongoRepo, ApiError>)
        ensures
            r matches Ok(repo) ==> collection_db(repo.users) == "rustDB"@ && collection_name(
                repo.users,
            ) == "User"@ && collection_db(repo.products) == "rustDB"@ && collection_name(
                repo.products,
            ) == "Product"@,
            r matches Err(e) ==> e == ApiError::Startup,
    {
        match connect(uri) {
            Ok(client) => {
                let db = open_database(&client, "rustDB");
                let users = open_collection(&db, "User");
                let products = open_collection(&db, "Product");
                Ok(MongoRepo { users, products })
            },
            Err(_) => Err(ApiError::Startup),
        }
    }

    /// Inserts the user's fields with no `_id`, and gives back the identifier
    /// that the store assigned, where it is an object id.
    pub fn create_user(&self, new_user: &User) -> (r: Result<Option<Identifier>, ApiError>)
        ensures
            r matches Err(e) ==> e == ApiError::Database,
    {
        let d = new_user.to_document();
        match insert_one(&self.users, d) {
            Ok(Some(bytes)) => Ok(Some(Identifier::from_bytes(bytes))),
            Ok(None) => Ok(None),
            Err(_) => Err(ApiError::Database),
        }
    }

    /// The user stored under the identifier.
    pub fn get_user(&self, id: &Identifier) -> (r: Result<User, ApiError>)
        ensures
            r matches Ok(x) ==> id_view(x.id) == Some(id.bytes@),
            r matches Err(e) ==> e == ApiError::NotFound || e == ApiError::Database,
    {
        match find_one(&self.users, id_filter(id)) {
            Ok(found) => user_from_lookup(id, found),
            Err(_) => Err(ApiError::Database),
        }
    }

    /// Sets every field of the user on the record with its identifier, and
    /// gives back how many records matched. A user without an identifier is a
    /// client input error.
    pub fn update_user(&self, new_user: &User) -> (r: Result<u64, ApiError>)
        ensures
            new_user.id is None <==> r == Err::<u64, ApiError>(ApiError::ClientInput),
            r matches Err(e) ==> e == ApiError::ClientInput || e == ApiError::Database,
    {
        match &new_user.id {
            None => Err(ApiError::ClientInput),
            Some(id) => match update_one(
                &self.users,
                id_filter(id),
                set_update(new_user.to_document()),
            ) {
                Ok(n) => Ok(n),
                Err(_) => Err(ApiError::Database),
            },
        }
    }

    /// Removes the record with the identifier, and gives back how many went.
    pub fn delete_user(&self, id: &Identifier) -> (r: Result<u64, ApiError>)
        ensures
            r matches Err(e) ==> e == ApiError::Database,
    {
        match delete_one(&self.users, id_filter(id)) {
            Ok(n) => Ok(n),
            Err(_) => Err(ApiError::Database),
        }
    }

    /// Every stored user; the first failure of the store, or the first stored
    /// document that does not describe a user, is a database error.
    pub fn get_all_users(&self) -> (r: Result<Vec<User>, ApiError>)
        ensures
            r matches Err(e) ==> e == ApiError::Database,
    {
        let listed = match find_all(&self.users) {
            Ok(cursor) => match drain(cursor) {
                Ok(docs) => Ok(docs),
                Err(_) => Err(ApiError::Database),
            },
            Err(_) => Err(ApiError::Database),
        };
        users_from_listing(listed)
    }

    /// Inserts the product's fields with no `_id`, and gives back the identifier
    /// that the store assigned, where it is an object id.
    pub fn create_product(&self, new_product: &Product) -> (r: Result<Option<Identifier>, ApiError>)
        ensures
            r matches Err(e) ==> e == ApiError::Database,
    {
        let d = new_product.to_document();
        match insert_one(&self.products, d) {
            Ok(Some(bytes)) => Ok(Some(Identifier::from_bytes(bytes))),
            Ok(None) => Ok(None),
            Err(_) => Err(ApiError::Database),
        }
    }

    /// The product stored under the identifier.
    pub fn get_product(&self, id: &Identifier) -> (r: Result<Product, ApiError>)
        ensures
            r matches Ok(x) ==> id_view(x.id) == Some(id.bytes@),
            r matches Err(e) ==> e == ApiError::NotFound || e == ApiError::Database,
    {
        match find_one(&self.products, id_filter(id)) {
            Ok(found) => product_from_lookup(id, found),
            Err(_) => Err(ApiError::Database),
        }
    }

    /// Sets every field of the product on the record with its identifier, and
    /// gives back how many records matched. A product without an identifier is a
    /// client input error.
    pub fn update_product(&self, new_product: &Product) -> (r: Result<u64, ApiError>)
        ensures
            new_product.id is None <==> r == Err::<u64, ApiError>(ApiError::ClientInput),
            r matches Err(e) ==> e == ApiError::ClientInput || e == ApiError::Database,
    {
        match &new_product.id {
            None => Err(ApiError::ClientInput),
            Some(id) => match update_one(
                &self.products,
                id_filter(id),
                set_update(new_product.to_document()),
            ) {
                Ok(n) => Ok(n),
                Err(_) => Err(ApiError::Database),
            },
        }
    }

    /// Removes the record with the identifier, and gives back how many went.
    pub fn delete_product(&self, id: &Identifier) -> (r: Result<u64, ApiError>)
        ensures
            r matches Err(e) ==> e == ApiError::Database,
    {
        match delete_one(&self.products, id_filter(id)) {
            Ok(n) => Ok(n),
            Err(_) => Err(ApiError::Database),
        }
    }

    /// Every stored product; the first failure of the store, or the first stored
    /// document that does not describe a product, is a database error.
    pub fn get_all_products(&self) -> (r: Result<Vec<Product>, ApiError>)
        ensures
            r matches Err(e) ==> e == ApiError::Database,
    {
        let listed = match find_all(&self.products) {
            Ok(cursor) => match drain(cursor) {
                Ok(docs) => Ok(docs),
                Err(_) => Err(ApiError::Database),
            },
            Err(_) => Err(ApiError::Database),
        };
        products_from_listing(listed)
    }
}

/// Reads each document as a user, in order; stops at the first that is not one.
pub fn users_of_documents(docs: &Vec<Document>) -> (r: Result<Vec<User>, ApiError>)
    ensures
        r is Ok <==> forall|i: int| 0 <= i < docs@.len() ==> (#[trigger] user_of_fields(
            fields_of(docs@[i]),
        )) is Some,
        r matches Ok(us) ==> us@.len() == docs@.len() && forall|i: int|
            0 <= i < docs@.len() ==> Some((#[trigger] us@[i])@) == user_of_fields(fields_of(docs@[i])),
        r matches Err(e) ==> e == ApiError::Database,
{
    let mut out: Vec<User> = Vec::new();
    let mut i: usize = 0;
    while i < docs.len()
        invariant
            i <= docs@.len(),
            out@.len() == i,
            forall|j: int| 0 <= j < i ==> (#[trigger] user_of_fields(fields_of(docs@[j]))) is Some,
            forall|j: int| 0 <= j < i ==> Some((#[trigger] out@[j])@) == user_of_fields(fields_of(docs@[j])),
        decreases docs@.len() - i,
    {
        match User::from_document(&docs[i]) {
            Ok(u) => out.push(u),
            Err(e) => {
                return Err(e);
            },
        }
        i = i + 1;
    }
    Ok(out)
}

/// Reads each document as a product, in order; stops at the first that is not one.
pub fn products_of_documents(docs: &Vec<Document>) -> (r: Result<Vec<Product>, ApiError>)
    ensures
        r is Ok <==> forall|i: int| 0 <= i < docs@.len() ==> (#[trigger] product_of_fields(
            fields_of(docs@[i]),
        )) is Some,
        r matches Ok(ps) ==> ps@.len() == docs@.len() && forall|i: int|
            0 <= i < docs@.len() ==> Some((#[trigger] ps@[i])@) == product_of_fields(fields_of(docs@[i])),
        r matches Err(e) ==> e == ApiError::Database,
{
    let mut out: Vec<Product> = Vec::new();
    let mut i: usize = 0;
    while i < docs.len()
        invariant
            i <= docs@.len(),
            out@.len() == i,
            forall|j: int| 0 <= j < i ==> (#[trigger] product_of_fields(fields_of(docs@[j]))) is Some,
            forall|j: int| 0 <= j < i ==> Some((#[trigger] out@[j])@) == product_of_fields(fields_of(docs@[j])),
        decreases docs@.len() - i,
    {
        match Product::from_document(&docs[i]) {
            Ok(u) => out.push(u),
            Err(e) => {
                return Err(e);
            },
        }
        i = i + 1;
    }
    Ok(out)
}

} // verus!
