use mongo_crud::error::ApiError;
use mongo_crud::identifier::Identifier;

#[test]
fn parse_accepts_lowercase_hex() {
    let id = Identifier::parse("507f1f77bcf86cd799439011").unwrap();
    assert_eq!(id.bytes, [0x50, 0x7f, 0x1f, 0x77, 0xbc, 0xf8, 0x6c, 0xd7, 0x99, 0x43, 0x90, 0x11]);
    assert_eq!(id.to_hex(), "507f1f77bcf86cd799439011");
}

#[test]
fn parse_accepts_uppercase_and_prints_lowercase() {
    let id = Identifier::parse("507F1F77BCF86CD799439011").unwrap();
    assert_eq!(id.to_hex(), "507f1f77bcf86cd799439011");
}

#[test]
fn parse_rejects_malformed_text() {
    for s in ["", "abc", "507f1f77bcf86cd79943901", "507f1f77bcf86cd7994390111", "507f1f77bcf86cd79943901g"] {
        assert_eq!(Identifier::parse(s), Err(ApiError::ClientInput));
    }
}

#[test]
fn hex_of_known_bytes() {
    let id = Identifier::from_bytes([0, 1, 2, 3, 4, 5, 6, 7, 8, 9, 10, 255]);
    assert_eq!(id.to_hex(), "000102030405060708090aff");
    assert_eq!(Identifier::parse(&id.to_hex()), Ok(id));
}

#[test]
fn statuses_of_errors() {
    assert_eq!(ApiError::ClientInput.status(), 400);
    assert_eq!(ApiError::NotFound.status(), 404);
    assert_eq!(ApiError::Database.status(), 500);
    assert_eq!(ApiError::Startup.status(), 500);
}
