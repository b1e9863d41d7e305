//! Stored documents `{ _id, nom, prenom }` and how they are read as persons.
use vstd::prelude::*;

use crate::error::MyError;
use crate::identifier::Identifier;
use crate::person::{Person, PersonModel};

verus! {

/// The value found under one field name of a document.
#[derive(Clone, Debug, PartialEq, Eq)]
pub enum FieldValue {
    /// The document has no such field.
    Absent,
    /// The field holds null.
    Null,
    /// The field holds a string.
    Text(String),
    /// The field holds an identifier.
    ObjectId(Identifier),
    /// The field holds a value of any other kind.
    Other,
}

/// A field value over mathematical values.
pub enum FieldModel {
    Absent,
    Null,
    Text(Seq<char>),
    ObjectId(Seq<u8>),
    Other,
}

impl FieldValue {
    pub open spec fn view(&self) -> FieldModel {
        match self {
            FieldValue::Absent => FieldModel::Absent,
            FieldValue::Null => FieldModel::Null,
            FieldValue::Text(t) => FieldModel::Text(t@),
            FieldValue::ObjectId(i) => FieldModel::ObjectId(i@),
            FieldValue::Other => FieldModel::Other,
        }
    }
}

/// The three fields of a document that a person is read from.
#[derive(Clone, Debug, PartialEq, Eq)]
pub struct RawDocument {
    pub id: FieldValue,
    pub nom: FieldValue,
    pub prenom: FieldValue,
}

/// A document over mathematical values.
pub struct DocModel {
    pub id: FieldModel,
    pub nom: FieldModel,
    pub prenom: FieldModel,
}

impl RawDocument {
    pub open spec fn view(&self) -> DocModel {
        DocModel { id: self.id@, nom: self.nom@, prenom: self.prenom@ }
    }
}

/// The person a document stands for, if it is one: `_id` absent, null or an
/// identifier; `nom` and `prenom` strings.
pub open spec fn decode_model(d: DocModel) -> Option<PersonModel> {
    let id = match d.id {
        FieldModel::Absent => Some(None),
        FieldModel::Null => Some(None),
        FieldModel::ObjectId(b) => Some(Some(b)),
        _ => None,
    };
    match (id, d.nom, d.prenom) {
        (Some(i), FieldModel::Text(n), FieldModel::Text(p)) => Some(
            PersonModel { id: i, nom: n, prenom: p },
        ),
        _ => None,
    }
}

/// The document a stored person is kept as.
pub open spec fn person_document(p: PersonModel) -> DocModel {
    DocModel {
        id: match p.id {
            Some(b) => FieldModel::ObjectId(b),
            None => FieldModel::Null,
        },
        nom: FieldModel::Text(p.nom),
        prenom: FieldModel::Text(p.prenom),
    }
}

/// The text a field holds, if it holds text.
fn field_text(f: &FieldValue) -> (r: Option<String>)
    ensures
        match f@ {
            FieldModel::Text(t) => r is Some && r->Some_0@ == t,
            _ => r is None,
        },
{
    match f {
        FieldValue::Text(t) => Some(t.clone()),
        _ => None,
    }
}

/// Reads a document as a person; a document that is not one is a decode
/// error.
pub fn decode_person(doc: &RawDocument) -> (r: Result<Person, MyError>)
    ensures
        match decode_model(doc@) {
            Some(m) => r is Ok && r->Ok_0@ == m,
            None => r == Err::<Person, MyError>(MyError::DecodeError),
        },
{
    let id = match &doc.id {
        FieldValue::Absent => None,
        FieldValue::Null => None,
        FieldValue::ObjectId(i) => Some(*i),
        _ => {
            return Err(MyError::DecodeError);
        },
    };
    let nom = match field_text(&doc.nom) {
        Some(t) => t,
        None => {
            return Err(MyError::DecodeError);
        },
    };
    let prenom = match field_text(&doc.prenom) {
        Some(t) => t,
        None => {
            return Err(MyError::DecodeError);
        },
    };
    Ok(Person { id, nom, prenom })
}

} // verus!
