//! The repository calls, split at the store round trip: each call first
//! decides which single store command to run, and then turns the store's
//! reply into its result. The code that owns the connection runs the command
//! in between.
use vstd::prelude::*;

use crate::document::{decode_model, decode_person, DocModel, FieldModel, FieldValue, RawDocument};
use crate::error::{failure_error, MyError, StoreFailure};
use crate::identifier::{hex_decode, is_identifier_text, Identifier};
use crate::person::{id_model, InsertablePerson, Person, PersonModel};

verus! {

/// One store operation on the collection of persons.
#[derive(Clone, Debug, PartialEq, Eq)]
pub enum StoreCommand {
    /// Insert a new document `{ nom, prenom }`; the store assigns `_id`.
    InsertOne { nom: String, prenom: String },
    /// Return every document of the collection.
    FindAll,
    /// Return the document whose `_id` is `id`, if any.
    FindById { id: Identifier },
    /// Replace `nom` and `prenom` of the document whose `_id` is `id`, keeping
    /// the id, and return the document as it is after the replace.
    ReplaceById { id: Identifier, nom: String, prenom: String },
    /// Delete the one document equal to `{ _id: person_id, nom, prenom }`
    /// (with `_id` null when `person_id` is absent), and return it as it was.
    DeleteMatching { person_id: Option<Identifier>, nom: String, prenom: String },
}

/// A store command over mathematical values.
pub enum CommandModel {
    InsertOne(Seq<char>, Seq<char>),
    FindAll,
    FindById(Seq<u8>),
    ReplaceById(Seq<u8>, Seq<char>, Seq<char>),
    DeleteMatching(PersonModel),
}

impl StoreCommand {
    pub open spec fn view(&self) -> CommandModel {
        match self {
            StoreCommand::InsertOne { nom, prenom } => CommandModel::InsertOne(nom@, prenom@),
            StoreCommand::FindAll => CommandModel::FindAll,
            StoreCommand::FindById { id } => CommandModel::FindById(id@),
            StoreCommand::ReplaceById { id, nom, prenom } => CommandModel::ReplaceById(
                id@,
                nom@,
                prenom@,
            ),
            StoreCommand::DeleteMatching { person_id, nom, prenom } => CommandModel::DeleteMatching(
                PersonModel { id: id_model(*person_id), nom: nom@, prenom: prenom@ },
            ),
        }
    }
}

/// The command that looks up the person whose identifier's text is `text`.
pub open spec fn lookup_model(text: Seq<char>) -> Result<CommandModel, MyError> {
    if is_identifier_text(text) {
        Ok(CommandModel::FindById(hex_decode(text)))
    } else {
        Err(MyError::InvalidIdentifier)
    }
}

/// The command that replaces the names of the person whose identifier's text
/// is `text` by those of `replacement`; the replacement's own id is not used.
pub open spec fn replace_model(text: Seq<char>, replacement: PersonModel) -> Result<
    CommandModel,
    MyError,
> {
    if is_identifier_text(text) {
        Ok(CommandModel::ReplaceById(hex_decode(text), replacement.nom, replacement.prenom))
    } else {
        Err(MyError::InvalidIdentifier)
    }
}

/// The result of an insert of `nom` and `prenom`, given the store's reply:
/// the `_id` that the store assigned, or why the round trip failed.
pub open spec fn added_model(
    nom: Seq<char>,
    prenom: Seq<char>,
    reply: Result<FieldModel, StoreFailure>,
) -> Result<PersonModel, MyError> {
    match reply {
        Ok(FieldModel::ObjectId(b)) => Ok(PersonModel { id: Some(b), nom, prenom }),
        Ok(_) => Err(MyError::DecodeError),
        Err(f) => Err(failure_error(f)),
    }
}

/// Whether every document of `docs` reads as a person.
pub open spec fn all_decode(docs: Seq<DocModel>) -> bool {
    forall|i: int| 0 <= i < docs.len() ==> (#[trigger] decode_model(docs[i])) is Some
}

/// The result of a listing, given the store's reply: all documents read as
/// persons in the order given, or a decode error if any one is not a person.
pub open spec fn listed_model(reply: Result<Seq<DocModel>, StoreFailure>) -> Result<
    Seq<PersonModel>,
    MyError,
> {
    match reply {
        Ok(docs) => if all_decode(docs) {
            Ok(docs.map_values(|d: DocModel| decode_model(d)->Some_0))
        } else {
            Err(MyError::DecodeError)
        },
        Err(f) => Err(failure_error(f)),
    }
}

/// The result of a call on one document, given the store's reply: the
/// document found (read as a person), none, or why it failed.
pub open spec fn found_model(reply: Result<Option<DocModel>, StoreFailure>) -> Result<
    Option<PersonModel>,
    MyError,
> {
    match reply {
        Ok(Some(d)) => match decode_model(d) {
            Some(p) => Ok(Some(p)),
            None => Err(MyError::DecodeError),
        },
        Ok(None) => Ok(None),
        Err(f) => Err(failure_error(f)),
    }
}

pub open spec fn field_reply_model(reply: Result<FieldValue, StoreFailure>) -> Result<
    FieldModel,
    StoreFailure,
> {
    match reply {
        Ok(v) => Ok(v@),
        Err(f) => Err(f),
    }
}

pub open spec fn docs_model(docs: Seq<RawDocument>) -> Seq<DocModel> {
    docs.map_values(|d: RawDocument| d@)
}

pub open spec fn docs_reply_model(reply: Result<Vec<RawDocument>, StoreFailure>) -> Result<
    Seq<DocModel>,
    StoreFailure,
> {
    match reply {
        Ok(v) => Ok(docs_model(v@)),
        Err(f) => Err(f),
    }
}

pub open spec fn one_reply_model(reply: Result<Option<RawDocument>, StoreFailure>) -> Result<
    Option<DocModel>,
    StoreFailure,
> {
    match reply {
        Ok(Some(d)) => Ok(Some(d@)),
        Ok(None) => Ok(None),
        Err(f) => Err(f),
    }
}

pub open spec fn persons_model(ps: Seq<Person>) -> Seq<PersonModel> {
    ps.map_values(|p: Person| p@)
}

/// The insert command for a new person.
pub fn insert_command(pers: &InsertablePerson) -> (r: StoreCommand)
    ensures
        r@ == CommandModel::InsertOne(pers.nom@, pers.prenom@),
{
    StoreCommand::InsertOne { nom: pers.nom.clone(), prenom: pers.prenom.clone() }
}

/// The person that an insert created, from the `_id` the store reports.
pub fn added_person(pers: InsertablePerson, reply: Result<FieldValue, StoreFailure>) -> (r: Result<
    Person,
    MyError,
>)
    ensures
        match added_model(pers.nom@, pers.prenom@, field_reply_model(reply)) {
            Ok(m) => r is Ok && r->Ok_0@ == m,
            Err(e) => r == Err::<Person, MyError>(e),
        },
{
    match reply {
        Ok(FieldValue::ObjectId(id)) => Ok(Person { id: Some(id), nom: pers.nom, prenom: pers.prenom }),
        Ok(_) => Err(MyError::DecodeError),
        Err(f) => Err(MyError::from_failure(f)),
    }
}

/// Every person of a listing, or an error if any document is not one.
pub fn listed_persons(reply: Result<Vec<RawDocument>, StoreFailure>) -> (r: Result<
    Vec<Person>,
    MyError,
>)
    ensures
        match listed_model(docs_reply_model(reply)) {
            Ok(ms) => r is Ok && persons_model(r->Ok_0@) == ms,
            Err(e) => r == Err::<Vec<Person>, MyError>(e),
        },
{
    let ghost rm = docs_reply_model(reply);
    let docs = match reply {
        Ok(docs) => docs,
        Err(f) => {
            return Err(MyError::from_failure(f));
        },
    };
    let ghost dm = docs_model(docs@);
    let mut persons: Vec<Person> = Vec::new();
    let mut i: usize = 0;
    while i < docs.len()
        invariant
            i <= docs@.len(),
            dm == docs_model(docs@),
            rm == Ok::<Seq<DocModel>, StoreFailure>(dm),
            rm == docs_reply_model(reply),
            persons@.len() == i,
            forall|j: int| 0 <= j < i ==> (#[trigger] decode_model(dm[j])) is Some,
            forall|j: int|
                0 <= j < i ==> Some(#[trigger] persons@[j]@) == decode_model(dm[j]),
        decreases docs@.len() - i,
    {
        proof {
            assert(dm[i as int] == docs@[i as int]@);
        }
        match decode_person(&docs[i]) {
            Ok(p) => {
                persons.push(p);
            },
            Err(_) => {
                proof {
                    assert(!all_decode(dm)) by {
                        assert(decode_model(dm[i as int]) is None);
                    }
                }
                return Err(MyError::DecodeError);
            },
        }
        i = i + 1;
    }
    proof {
        assert(all_decode(dm));
        assert(persons_model(persons@) =~= dm.map_values(
            |d: DocModel| decode_model(d)->Some_0,
        ));
    }
    Ok(persons)
}

/// The lookup command for the identifier written as `id_text`; text that is
/// not an identifier is refused before any store call.
pub fn lookup_command(id_text: &str) -> (r: Result<StoreCommand, MyError>)
    ensures
        match lookup_model(id_text@) {
            Ok(c) => r is Ok && r->Ok_0@ == c,
            Err(e) => r == Err::<StoreCommand, MyError>(e),
        },
{
    match Identifier::parse(id_text) {
        Some(id) => Ok(StoreCommand::FindById { id }),
        None => Err(MyError::InvalidIdentifier),
    }
}

/// The replace command for the identifier written as `id_text`, taking the
/// names of `replacement`; text that is not an identifier is refused.
pub fn replace_command(id_text: &str, replacement: &Person) -> (r: Result<StoreCommand, MyError>)
    ensures
        match replace_model(id_text@, replacement@) {
            Ok(c) => r is Ok && r->Ok_0@ == c,
            Err(e) => r == Err::<StoreCommand, MyError>(e),
        },
{
    match Identifier::parse(id_text) {
        Some(id) => Ok(
            StoreCommand::ReplaceById {
                id,
                nom: replacement.nom.clone(),
                prenom: replacement.prenom.clone(),
            },
        ),
        None => Err(MyError::InvalidIdentifier),
    }
}

/// The delete command for the document equal to the whole of `pers`.
pub fn delete_command(pers: &Person) -> (r: StoreCommand)
    ensures
        r@ == CommandModel::DeleteMatching(pers@),
{
    StoreCommand::DeleteMatching { person_id: pers.id, nom: pers.nom.clone(), prenom: pers.prenom.clone() }
}

/// The person that a lookup, replace or delete reports, from the one
/// document (or none) that the store returned.
pub fn found_person(reply: Result<Option<RawDocument>, StoreFailure>) -> (r: Result<
    Option<Person>,
    MyError,
>)
    ensures
        match found_model(one_reply_model(reply)) {
            Ok(Some(m)) => r is Ok && r->Ok_0 is Some && r->Ok_0->Some_0@ == m,
            Ok(None) => r == Ok::<Option<Person>, MyError>(None),
            Err(e) => r == Err::<Option<Person>, MyError>(e),
        },
{
    match reply {
        Ok(Some(doc)) => match decode_person(&doc) {
            Ok(p) => Ok(Some(p)),
            Err(e) => Err(e),
        },
        Ok(None) => Ok(None),
        Err(f) => Err(MyError::from_failure(f)),
    }
}

} // verus!
