use vstd::prelude::*;
use crate::error::ApiError;

verus! {

pub open spec fn is_hex_digit(c: char) -> bool {
    ('0' <= c && c <= '9') || ('a' <= c && c <= 'f') || ('A' <= c && c <= 'F')
}

/// The value of a hex digit, in either case.
pub open spec fn hex_value(c: char) -> int {
    if '0' <= c && c <= '9' {
        c as int - '0' as int
    } else if 'a' <= c && c <= 'f' {
        c as int - 'a' as int + 10
    } else {
        c as int - 'A' as int + 10
    }
}

/// The lowercase hex digit of a value below 16.
pub open spec fn hex_digit(n: int) -> char {
    if n == 0 { '0' } else if n == 1 { '1' } else if n == 2 { '2' } else if n == 3 { '3' }
    else if n == 4 { '4' } else if n == 5 { '5' } else if n == 6 { '6' } else if n == 7 { '7' }
    else if n == 8 { '8' } else if n == 9 { '9' } else if n == 10 { 'a' } else if n == 11 { 'b' }
    else if n == 12 { 'c' } else if n == 13 { 'd' } else if n == 14 { 'e' } else { 'f' }
}

/// Two lowercase hex digits per byte, high nibble first.
pub open spec fn hex_of(b: Seq<u8>) -> Seq<char> {
    Seq::new(
        2 * b.len(),
        |i: int|
            if i % 2 == 0 {
                hex_digit(b[i / 2] as int / 16)
            } else {
                hex_digit(b[i / 2] as int % 16)
            },
    )
}

/// The text form of an identifier: exactly 24 hex digits, in either case.
pub open spec fn is_id_text(s: Seq<char>) -> bool {
    s.len() == 24 && forall|i: int| 0 <= i < 24 ==> is_hex_digit(#[trigger] s[i])
}

/// The 12 bytes that 24 hex digits stand for.
pub open spec fn id_bytes_of(s: Seq<char>) -> Seq<u8> {
    Seq::new(12, |i: int| (hex_value(s[2 * i]) * 16 + hex_value(s[2 * i + 1])) as u8)
}

#[verifier::external_type_specification]
#[verifier::external_body]
pub struct ExOidError(mongodb::bson::oid::Error);

/// Relies on bson's `ObjectId::parse_str`: it hex-decodes the text (digits of
/// either case) and accepts it only when it decodes to exactly 12 bytes.
#[verifier::external_body]
fn parse_object_id(s: &str) -> (r: Result<[u8; 12], mongodb::bson::oid::Error>)
    ensures
        r is Ok <==> is_id_text(s@),
        r matches Ok(b) ==> b@ == id_bytes_of(s@),
{
    mongodb::bson::oid::ObjectId::parse_str(s).map(|o| o.bytes())
}

/// Relies on bson's `ObjectId::to_hex`: the bytes in lowercase hex.
#[verifier::external_body]
fn object_id_hex(b: [u8; 12]) -> (r: String)
    ensures
        r@ == hex_of(b@),
{
    mongodb::bson::oid::ObjectId::from_bytes(b).to_hex()
}

/// The 12-byte key of a stored record.
#[derive(Clone, Copy, Debug, PartialEq, Eq)]
pub struct Identifier {
    pub bytes: [u8; 12],
}

impl Identifier {
    pub fn from_bytes(bytes: [u8; 12]) -> (r: Identifier)
        ensures
            r.bytes == bytes,
    {
        Identifier { bytes }
    }

    /// Reads the 24-digit hex form; anything else is a client input error.
    pub fn parse(s: &str) -> (r: Result<Identifier, ApiError>)
        ensures
            r is Ok <==> is_id_text(s@),
            r matches Ok(id) ==> id.bytes@ == id_bytes_of(s@),
            r matches Err(e) ==> e == ApiError::ClientInput,
    {
        match parse_object_id(s) {
            Ok(bytes) => Ok(Identifier { bytes }),
            Err(_) => Err(ApiError::ClientInput),
        }
    }

    /// The lowercase 24-digit hex form.
    pub fn to_hex(&self) -> (r: String)
        ensures
            r@ == hex_of(self.bytes@),
    {
        object_id_hex(self.bytes)
    }
}

/// The bytes of an optional identifier.
pub open spec fn id_view(id: Option<Identifier>) -> Option<Seq<u8>> {
    match id {
        Some(i) => Some(i.bytes@),
        None => None,
    }
}

proof fn lemma_nibbles(x: int)
    requires
        0 <= x < 256,
    ensures
        hex_value(hex_digit(x / 16)) * 16 + hex_value(hex_digit(x % 16)) == x,
        is_hex_digit(hex_digit(x / 16)),
        is_hex_digit(hex_digit(x % 16)),
{
}

/// The hex form of any 12 bytes is identifier text, and it reads back as the
/// same bytes.
pub proof fn lemma_hex_round_trip(b: Seq<u8>)
    requires
        b.len() == 12,
    ensures
        is_id_text(hex_of(b)),
        id_bytes_of(hex_of(b)) == b,
{
    let h = hex_of(b);
    assert forall|i: int| 0 <= i < 24 implies is_hex_digit(#[trigger] h[i]) by {
        lemma_nibbles(b[i / 2] as int);
    }
    assert forall|i: int| 0 <= i < 12 implies #[trigger] id_bytes_of(h)[i] == b[i] by {
        lemma_nibbles(b[i] as int);
        assert((2 * i) / 2 == i);
        assert((2 * i + 1) / 2 == i);
    }
    assert(id_bytes_of(h) =~= b);
}

} // verus!
