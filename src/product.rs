use vstd::prelude::*;
use mongodb::bson::{Bson, Document};
use crate::document::{
    bson_object_id, fields_of, get_field, id_field, new_document, put_field, text_at,
    text_field, text_value,
};
use crate::error::ApiError;
use crate::identifier::{hex_of, id_bytes_of, is_id_text, id_view, lemma_hex_round_trip, Identifier};

verus! {

/// A catalogue record; `id` is absent until the record is first stored.
#[derive(Clone, Debug, PartialEq)]
pub struct Product {
    pub id: Option<Identifier>,
    pub name: String,
    pub vendor: String,
    pub sku: String,
    pub origin: String,
    /// The price as the store holds it (a double); it is carried, never read.
    pub price: Bson,
}

pub struct ProductModel {
    pub id: Option<Seq<u8>>,
    pub name: Seq<char>,
    pub vendor: Seq<char>,
    pub sku: Seq<char>,
    pub origin: Seq<char>,
    pub price: Bson,
}

impl View for Product {
    type V = ProductModel;

    open spec fn view(&self) -> ProductModel {
        ProductModel {
            id: id_view(self.id),
            name: self.name@,
            vendor: self.vendor@,
            sku: self.sku@,
            origin: self.origin@,
            price: self.price,
        }
    }
}

/// The keys that a product's stored fields occupy, besides `_id`.
pub open spec fn product_keys() -> Set<Seq<char>> {
    set!["name"@, "vendor"@, "sku"@, "origin"@, "price"@]
}

/// The product that a stored document describes: the four text fields must be
/// strings, `price` present, and `_id`, where present, an object id.
pub open spec fn product_of_fields(m: Map<Seq<char>, Bson>) -> Option<ProductModel> {
    if text_at(m, "name"@) is Some && text_at(m, "vendor"@) is Some && text_at(m, "sku"@) is Some
        && text_at(m, "origin"@) is Some && m.contains_key("price"@) && (m.contains_key("_id"@)
        ==> bson_object_id(m["_id"@]) is Some) {
        Some(
            ProductModel {
                id: if m.contains_key("_id"@) {
                    bson_object_id(m["_id"@])
                } else {
                    None
                },
                name: text_at(m, "name"@).unwrap(),
                vendor: text_at(m, "vendor"@).unwrap(),
                sku: text_at(m, "sku"@).unwrap(),
                origin: text_at(m, "origin"@).unwrap(),
                price: m["price"@],
            },
        )
    } else {
        None
    }
}

/// The fields of a product, as a document holds them (no `_id`).
pub open spec fn holds_product_fields(m: Map<Seq<char>, Bson>, u: ProductModel) -> bool {
    &&& m.dom() == product_keys()
    &&& text_at(m, "name"@) == Some(u.name)
    &&& text_at(m, "vendor"@) == Some(u.vendor)
    &&& text_at(m, "sku"@) == Some(u.sku)
    &&& text_at(m, "origin"@) == Some(u.origin)
    &&& m["price"@] == u.price
}

/// The wire form: the identifier travels as hex text under `_id`, and is left
/// out where the product has none.
#[derive(Clone, Debug, PartialEq)]
pub struct ProductWire {
    pub _id: Option<String>,
    pub name: String,
    pub vendor: String,
    pub sku: String,
    pub origin: String,
    /// The price as the store holds it (a double); it is carried, never read.
    pub price: Bson,
}

pub struct ProductWireModel {
    pub id: Option<Seq<char>>,
    pub name: Seq<char>,
    pub vendor: Seq<char>,
    pub sku: Seq<char>,
    pub origin: Seq<char>,
    pub price: Bson,
}

impl View for ProductWire {
    type V = ProductWireModel;

    open spec fn view(&self) -> ProductWireModel {
        ProductWireModel {
            id: match self._id {
                Some(s) => Some(s@),
                None => None,
            },
            name: self.name@,
            vendor: self.vendor@,
            sku: self.sku@,
            origin: self.origin@,
            price: self.price,
        }
    }
}

pub open spec fn product_wire_of(u: ProductModel) -> ProductWireModel {
    ProductWireModel {
        id: match u.id {
            Some(b) => Some(hex_of(b)),
            None => None,
        },
        name: u.name,
        vendor: u.vendor,
        sku: u.sku,
        origin: u.origin,
        price: u.price,
    }
}

/// The product that a wire form stands for; `None` where `_id` is not
/// identifier text.
pub open spec fn product_of_wire(w: ProductWireModel) -> Option<ProductModel> {
    match w.id {
        Some(s) => if is_id_text(s) {
            Some(
                ProductModel {
                    id: Some(id_bytes_of(s)),
                    name: w.name,
                    vendor: w.vendor,
                    sku: w.sku,
                    origin: w.origin,
                    price: w.price,
                },
            )
        } else {
            None
        },
        None => Some(
            ProductModel {
                id: None,
                name: w.name,
                vendor: w.vendor,
                sku: w.sku,
                origin: w.origin,
                price: w.price,
            },
        ),
    }
}

impl Product {
    /// The same fields with no identifier, as a record to be created.
    pub fn without_id(&self) -> (r: Product)
        ensures
            r@ == (ProductModel { id: None, ..self@ }),
    {
        Product {
            id: None,
            name: self.name.clone(),
            vendor: self.vendor.clone(),
            sku: self.sku.clone(),
            origin: self.origin.clone(),
            price: self.price.clone(),
        }
    }

    /// The document of the product's fields, without `_id`.
    pub fn to_document(&self) -> (r: Document)
        ensures
            holds_product_fields(fields_of(r), self@),
    {
        let mut d = new_document();
        put_field(&mut d, "name", text_value(self.name.clone()));
        put_field(&mut d, "vendor", text_value(self.vendor.clone()));
        put_field(&mut d, "sku", text_value(self.sku.clone()));
        put_field(&mut d, "origin", text_value(self.origin.clone()));
        put_field(&mut d, "price", self.price.clone());
        proof {
            lemma_product_keys_distinct();
            assert(fields_of(d).dom() =~= product_keys());
        }
        d
    }

    /// Reads a stored document; one that does not describe a product is a
    /// database error.
    pub fn from_document(d: &Document) -> (r: Result<Product, ApiError>)
        ensures
            match product_of_fields(fields_of(*d)) {
                Some(m) => r is Ok && r->Ok_0@ == m,
                None => r == Err::<Product, ApiError>(ApiError::Database),
            },
    {
        let id = match id_field(d, "_id") {
            Ok(id) => id,
            Err(_) => {
                return Err(ApiError::Database);
            },
        };
        let name = text_field(d, "name");
        let vendor = text_field(d, "vendor");
        let sku = text_field(d, "sku");
        let origin = text_field(d, "origin");
        let price = get_field(d, "price");
        match (name, vendor, sku, origin, price) {
            (Some(name), Some(vendor), Some(sku), Some(origin), Some(price)) => {
                let id = match id {
                    Some(bytes) => Some(Identifier::from_bytes(bytes)),
                    None => None,
                };
                Ok(Product { id, name, vendor, sku, origin, price })
            },
            _ => Err(ApiError::Database),
        }
    }

    pub fn to_wire(&self) -> (r: ProductWire)
        ensures
            r@ == product_wire_of(self@),
    {
        let _id = match &self.id {
            Some(i) => Some(i.to_hex()),
            None => None,
        };
        ProductWire {
            _id,
            name: self.name.clone(),
            vendor: self.vendor.clone(),
            sku: self.sku.clone(),
            origin: self.origin.clone(),
            price: self.price.clone(),
        }
    }

    /// Reads the wire form; an `_id` that is not 24 hex digits is a client
    /// input error.
    pub fn from_wire(w: &ProductWire) -> (r: Result<Product, ApiError>)
        ensures
            match product_of_wire(w@) {
                Some(m) => r is Ok && r->Ok_0@ == m,
                None => r == Err::<Product, ApiError>(ApiError::ClientInput),
            },
    {
        let id = match &w._id {
            Some(s) => match Identifier::parse(s.as_str()) {
                Ok(i) => Some(i),
                Err(e) => {
                    return Err(e);
                },
            },
            None => None,
        };
        Ok(
            Product {
                id,
                name: w.name.clone(),
                vendor: w.vendor.clone(),
                sku: w.sku.clone(),
                origin: w.origin.clone(),
                price: w.price.clone(),
            },
        )
    }
}

proof fn lemma_product_keys_distinct()
    ensures
        "_id"@ != "name"@,
        "_id"@ != "vendor"@,
        "_id"@ != "sku"@,
        "_id"@ != "origin"@,
        "_id"@ != "price"@,
        "name"@ != "vendor"@,
        "name"@ != "sku"@,
        "name"@ != "origin"@,
        "name"@ != "price"@,
        "vendor"@ != "sku"@,
        "vendor"@ != "origin"@,
        "vendor"@ != "price"@,
        "sku"@ != "origin"@,
        "sku"@ != "price"@,
        "origin"@ != "price"@,
{
    reveal_strlit("_id");
    reveal_strlit("name");
    reveal_strlit("vendor");
    reveal_strlit("sku");
    reveal_strlit("origin");
    reveal_strlit("price");
    assert("_id"@.len() == 3);
    assert("sku"@.len() == 3);
    assert("name"@.len() == 4);
    assert("price"@.len() == 5);
    assert("vendor"@.len() == 6);
    assert("origin"@.len() == 6);
    assert("_id"@[0] != "sku"@[0]);
    assert("vendor"@[0] != "origin"@[0]);
}

/// A product stored from its document reads back as the same product, with the
/// identifier that the store put under `_id`.
pub proof fn lemma_product_stored_reads_back(u: ProductModel, m: Map<Seq<char>, Bson>, stored_id: Bson)
    requires
        holds_product_fields(m, u),
        bson_object_id(stored_id) is Some,
    ensures
        product_of_fields(m.insert("_id"@, stored_id)) == Some(
            ProductModel { id: bson_object_id(stored_id), ..u },
        ),
{
    lemma_product_keys_distinct();
    assert(!m.contains_key("_id"@));
}

/// A stored product that receives a field-level set of another product's fields
/// reads back as exactly those fields, under the identifier it already had.
pub proof fn lemma_product_update_reads_back(
    stored: Map<Seq<char>, Bson>,
    p: ProductModel,
    set: Map<Seq<char>, Bson>,
)
    requires
        stored.contains_key("_id"@),
        bson_object_id(stored["_id"@]) is Some,
        holds_product_fields(set, p),
    ensures
        product_of_fields(stored.union_prefer_right(set)) == Some(
            ProductModel { id: bson_object_id(stored["_id"@]), ..p },
        ),
{
    lemma_product_keys_distinct();
    let m = stored.union_prefer_right(set);
    assert(!set.contains_key("_id"@));
    assert(m["_id"@] == stored["_id"@]);
}

/// A product's wire form reads back as the same product, identifier included when
/// present and absent when not.
pub proof fn lemma_product_wire_round_trip(u: ProductModel)
    requires
        u.id matches Some(b) ==> b.len() == 12,
    ensures
        product_of_wire(product_wire_of(u)) == Some(u),
{
    if let Some(b) = u.id {
        lemma_hex_round_trip(b);
    }
}

} // verus!
