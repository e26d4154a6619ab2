use mongo_crud::error::ApiError;
use mongo_crud::identifier::Identifier;
use mongo_crud::mongodb_repo::{product_from_lookup, products_from_listing, MongoRepo};
use mongo_crud::user_api::{created_id, delete_response};
use mongo_crud::product::{Product, ProductWire};
use mongo_crud::product_api::{delete_product, get_product, update_product, DeleteMessage};
use mongodb::bson::oid::ObjectId;
use mongodb::bson::{Bson, Document};

fn widget(id: Option<Identifier>) -> Product {
    Product {
        id,
        name: "Widget".to_string(),
        vendor: "Acme".to_string(),
        sku: "W-1".to_string(),
        origin: "US".to_string(),
        price: Bson::Double(9.99),
    }
}

fn stored(p: &Product, id: [u8; 12]) -> Document {
    let mut d = p.to_document();
    d.insert("_id", ObjectId::from_bytes(id));
    d
}

#[test]
fn product_wire_round_trip() {
    let with_id = widget(Some(Identifier::from_bytes([0xab; 12])));
    assert_eq!(Product::from_wire(&with_id.to_wire()), Ok(with_id));
    let without = widget(None);
    assert_eq!(without.to_wire()._id, None);
    assert_eq!(Product::from_wire(&without.to_wire()), Ok(without));
}

#[test]
fn product_wire_with_bad_id_is_client_error() {
    let mut w = widget(None).to_wire();
    w._id = Some("12345".to_string());
    assert_eq!(Product::from_wire(&w), Err(ApiError::ClientInput));
}

#[test]
fn product_document_keeps_fields_and_price() {
    let d = widget(None).to_document();
    assert_eq!(d.len(), 5);
    assert!(!d.contains_key("_id"));
    assert_eq!(d.get_str("sku"), Ok("W-1"));
    assert_eq!(d.get_f64("price"), Ok(9.99));
    assert_eq!(Product::from_document(&d), Ok(widget(None)));
}

#[test]
fn product_without_price_is_database_error() {
    let mut d = widget(None).to_document();
    d.remove("price");
    assert_eq!(Product::from_document(&d), Err(ApiError::Database));
    let id = Identifier::from_bytes([1; 12]);
    d.insert("_id", ObjectId::from_bytes([1; 12]));
    assert_eq!(product_from_lookup(&id, Some(d)), Err(ApiError::Database));
    assert_eq!(product_from_lookup(&id, None), Err(ApiError::NotFound));
}

#[test]
fn widget_scenario_without_a_server() {
    let created = Product::from_wire(&ProductWire {
        _id: None,
        name: "Widget".to_string(),
        vendor: "Acme".to_string(),
        sku: "W-1".to_string(),
        origin: "US".to_string(),
        price: Bson::Double(9.99),
    })
    .unwrap();
    let assigned = ObjectId::new().bytes();
    let assigned_id = created_id(Ok(Some(Identifier::from_bytes(assigned)))).unwrap();
    let back = product_from_lookup(&assigned_id, Some(stored(&created.without_id(), assigned))).unwrap();
    let wire = back.to_wire();
    let hex = wire._id.clone().unwrap();
    assert_eq!(hex.len(), 24);
    assert!(hex.chars().all(|c| c.is_ascii_hexdigit()));
    assert_eq!(wire.name, "Widget");
    assert_eq!(wire.vendor, "Acme");
    assert_eq!(wire.sku, "W-1");
    assert_eq!(wire.origin, "US");
    assert_eq!(wire.price, Bson::Double(9.99));
    let listed = products_from_listing(Ok(vec![stored(&created, assigned)])).unwrap();
    assert_eq!(listed, vec![back.clone()]);
    assert_eq!(Identifier::parse(&hex).unwrap().bytes, assigned);
    assert_eq!(delete_response(Ok(1)), Ok("Ok".to_string()));
    assert_eq!(product_from_lookup(&assigned_id, None).unwrap_err().status(), 404);
}

#[test]
fn product_handlers_reject_client_errors_before_the_store() {
    let db = MongoRepo::init("mongodb://127.0.0.1:1").unwrap();
    assert_eq!(get_product(&db, "12"), Err(ApiError::ClientInput));
    let msg = DeleteMessage { _id: "xyz".to_string() };
    assert_eq!(delete_product(&db, &msg), Err(ApiError::ClientInput));
    assert_eq!(update_product(&db, &widget(None)), Err(ApiError::ClientInput));
}
