use vstd::prelude::*;
use mongodb::bson::{Bson, Document};
use crate::document::{
    bson_object_id, fields_of, id_field, new_document, put_field, text_at, text_field, text_value,
};
use crate::error::ApiError;
use crate::identifier::{hex_of, id_bytes_of, is_id_text, id_view, lemma_hex_round_trip, Identifier};

verus! {

/// A person record; `id` is absent until the record is first stored.
#[derive(Clone, Debug, PartialEq)]
pub struct User {
    pub id: Option<Identifier>,
    pub name: String,
    pub location: String,
    pub title: String,
}

pub struct UserModel {
    pub id: Option<Seq<u8>>,
    pub name: Seq<char>,
    pub location: Seq<char>,
    pub title: Seq<char>,
}

impl View for User {
    type V = UserModel;

    open spec fn view(&self) -> UserModel {
        UserModel {
            id: id_view(self.id),
            name: self.name@,
            location: self.location@,
            title: self.title@,
        }
    }
}

/// The keys that a user's stored fields occupy, besides `_id`.
pub open spec fn user_keys() -> Set<Seq<char>> {
    set!["name"@, "location"@, "title"@]
}

/// The user that a stored document describes: the three text fields must be
/// strings, and `_id`, where present, an object id.
pub open spec fn user_of_fields(m: Map<Seq<char>, Bson>) -> Option<UserModel> {
    if text_at(m, "name"@) is Some && text_at(m, "location"@) is Some && text_at(
        m,
        "title"@,
    ) is Some && (m.contains_key("_id"@) ==> bson_object_id(m["_id"@]) is Some) {
        Some(
            UserModel {
                id: if m.contains_key("_id"@) {
                    bson_object_id(m["_id"@])
                } else {
                    None
                },
                name: text_at(m, "name"@).unwrap(),
                location: text_at(m, "location"@).unwrap(),
                title: text_at(m, "title"@).unwrap(),
            },
        )
    } else {
        None
    }
}

/// The fields of a user, as a document holds them (no `_id`).
pub open spec fn holds_user_fields(m: Map<Seq<char>, Bson>, u: UserModel) -> bool {
    &&& m.dom() == user_keys()
    &&& text_at(m, "name"@) == Some(u.name)
    &&& text_at(m, "location"@) == Some(u.location)
    &&& text_at(m, "title"@) == Some(u.title)
}

/// The wire form: the identifier travels as hex text under `_id`, and is left
/// out where the user has none.
#[derive(Clone, Debug, PartialEq)]
pub struct UserWire {
    pub _id: Option<String>,
    pub name: String,
    pub location: String,
    pub title: String,
}

pub struct UserWireModel {
    pub id: Option<Seq<char>>,
    pub name: Seq<char>,
    pub location: Seq<char>,
    pub title: Seq<char>,
}

impl View for UserWire {
    type V = UserWireModel;

    open spec fn view(&self) -> UserWireModel {
        UserWireModel {
            id: match self._id {
                Some(s) => Some(s@),
                None => None,
            },
            name: self.name@,
            location: self.location@,
            title: self.title@,
        }
    }
}

pub open spec fn user_wire_of(u: UserModel) -> UserWireModel {
    UserWireModel {
        id: match u.id {
            Some(b) => Some(hex_of(b)),
            None => None,
        },
        name: u.name,
        location: u.location,
        title: u.title,
    }
}

/// The user that a wire form stands for; `None` where `_id` is not
/// identifier text.
pub open spec fn user_of_wire(w: UserWireModel) -> Option<UserModel> {
    match w.id {
        Some(s) => if is_id_text(s) {
            Some(
                UserModel {
                    id: Some(id_bytes_of(s)),
                    name: w.name,
                    location: w.location,
                    title: w.title,
                },
            )
        } else {
            None
        },
        None => Some(UserModel { id: None, name: w.name, location: w.location, title: w.title }),
    }
}

impl User {
    /// The same fields with no identifier, as a record to be created.
    pub fn without_id(&self) -> (r: User)
        ensures
            r@ == (UserModel { id: None, ..self@ }),
    {
        User {
            id: None,
            name: self.name.clone(),
            location: self.location.clone(),
            title: self.title.clone(),
        }
    }

    /// The document of the user's fields, without `_id`.
    pub fn to_document(&self) -> (r: Document)
        ensures
            holds_user_fields(fields_of(r), self@),
    {
        let mut d = new_document();
        put_field(&mut d, "name", text_value(self.name.clone()));
        put_field(&mut d, "location", text_value(self.location.clone()));
        put_field(&mut d, "title", text_value(self.title.clone()));
        proof {
            lemma_keys_distinct();
            assert(fields_of(d).dom() =~= user_keys());
        }
        d
    }

    /// Reads a stored document; one that does not describe a user is a
    /// database error.
    pub fn from_document(d: &Document) -> (r: Result<User, ApiError>)
        ensures
            match user_of_fields(fields_of(*d)) {
                Some(m) => r is Ok && r->Ok_0@ == m,
                None => r == Err::<User, ApiError>(ApiError::Database),
            },
    {
        let id = match id_field(d, "_id") {
            Ok(id) => id,
            Err(_) => {
                return Err(ApiError::Database);
            },
        };
        let name = text_field(d, "name");
        let location = text_field(d, "location");
        let title = text_field(d, "title");
        match (name, location, title) {
            (Some(name), Some(location), Some(title)) => {
                let id = match id {
                    Some(bytes) => Some(Identifier::from_bytes(bytes)),
                    None => None,
                };
                Ok(User { id, name, location, title })
            },
            _ => Err(ApiError::Database),
        }
    }

    pub fn to_wire(&self) -> (r: UserWire)
        ensures
            r@ == user_wire_of(self@),
    {
        let _id = match &self.id {
            Some(i) => Some(i.to_hex()),
            None => None,
        };
        UserWire {
            _id,
            name: self.name.clone(),
            location: self.location.clone(),
            title: self.title.clone(),
        }
    }

    /// Reads the wire form; an `_id` that is not 24 hex digits is a client
    /// input error.
    pub fn from_wire(w: &UserWire) -> (r: Result<User, ApiError>)
        ensures
            match user_of_wire(w@) {
                Some(m) => r is Ok && r->Ok_0@ == m,
                None => r == Err::<User, ApiError>(ApiError::ClientInput),
            },
    {
        let id = match &w._id {
            Some(s) => match Identifier::parse(s.as_str()) {
                Ok(i) => Some(i),
                Err(e) => {
                    return Err(e);
                },
            },
            None => None,
        };
        Ok(User { id, name: w.name.clone(), location: w.location.clone(), title: w.title.clone() })
    }
}

proof fn lemma_keys_distinct()
    ensures
        "_id"@ != "name"@,
        "_id"@ != "location"@,
        "_id"@ != "title"@,
        "name"@ != "location"@,
        "name"@ != "title"@,
        "location"@ != "title"@,
{
    reveal_strlit("_id");
    reveal_strlit("name");
    reveal_strlit("location");
    reveal_strlit("title");
    assert("_id"@.len() == 3);
    assert("name"@.len() == 4);
    assert("location"@.len() == 8);
    assert("title"@.len() == 5);
    assert("name"@[0] != "title"@[0]);
}

/// A user stored from its document reads back as the same user, with the
/// identifier that the store put under `_id`.
pub proof fn lemma_user_stored_reads_back(u: UserModel, m: Map<Seq<char>, Bson>, stored_id: Bson)
    requires
        holds_user_fields(m, u),
        bson_object_id(stored_id) is Some,
    ensures
        user_of_fields(m.insert("_id"@, stored_id)) == Some(
            UserModel { id: bson_object_id(stored_id), ..u },
        ),
{
    lemma_keys_distinct();
    assert(!m.contains_key("_id"@));
}

/// A stored user that receives a field-level set of another user's fields
/// reads back as exactly those fields, under the identifier it already had.
pub proof fn lemma_user_update_reads_back(
    stored: Map<Seq<char>, Bson>,
    u: UserModel,
    set: Map<Seq<char>, Bson>,
)
    requires
        stored.contains_key("_id"@),
        bson_object_id(stored["_id"@]) is Some,
        holds_user_fields(set, u),
    ensures
        user_of_fields(stored.union_prefer_right(set)) == Some(
            UserModel { id: bson_object_id(stored["_id"@]), ..u },
        ),
{
    lemma_keys_distinct();
    let m = stored.union_prefer_right(set);
    assert(!set.contains_key("_id"@));
    assert(m["_id"@] == stored["_id"@]);
}

/// A user's wire form reads back as the same user, identifier included when
/// present and absent when not.
pub proof fn lemma_user_wire_round_trip(u: UserModel)
    requires
        u.id matches Some(b) ==> b.len() == 12,
    ensures
        user_of_wire(user_wire_of(u)) == Some(u),
{
    if let Some(b) = u.id {
        lemma_hex_round_trip(b);
    }
}

} // verus!
