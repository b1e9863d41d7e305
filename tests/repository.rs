use person_store::document::{decode_person, FieldValue, RawDocument};
use person_store::error::{MyError, StoreFailure};
use person_store::identifier::Identifier;
use person_store::person::{InsertablePerson, Person};
use person_store::repository::{
    added_person, delete_command, found_person, insert_command, listed_persons, lookup_command,
    replace_command, StoreCommand,
};

fn id_of(text: &str) -> Identifier {
    Identifier::parse(text).expect("valid identifier")
}

fn stored(id: Identifier, nom: &str, prenom: &str) -> RawDocument {
    RawDocument {
        id: FieldValue::ObjectId(id),
        nom: FieldValue::Text(nom.to_owned()),
        prenom: FieldValue::Text(prenom.to_owned()),
    }
}

fn person(id: Option<Identifier>, nom: &str, prenom: &str) -> Person {
    Person { id, nom: nom.to_owned(), prenom: prenom.to_owned() }
}

#[test]
fn test_add_person() {
    let new_person = person(None, "VOLNAY", "Alexandre");
    let ins = InsertablePerson::from_person(new_person);
    assert_eq!(
        insert_command(&ins),
        StoreCommand::InsertOne { nom: "VOLNAY".to_owned(), prenom: "Alexandre".to_owned() }
    );
    let id = id_of("5e7ccb3a00afb51100faa21d");
    let added = added_person(ins, Ok(FieldValue::ObjectId(id))).expect("added");
    assert_eq!(added, person(Some(id), "VOLNAY", "Alexandre"));
}

#[test]
fn test_modify_person() {
    let replacement = person(None, "DOE", "Jane");
    let cmd = replace_command("5e7ccb3a00afb51100faa21d", &replacement).expect("valid id");
    let id = id_of("5e7ccb3a00afb51100faa21d");
    assert_eq!(
        cmd,
        StoreCommand::ReplaceById { id, nom: "DOE".to_owned(), prenom: "Jane".to_owned() }
    );
    let reported = found_person(Ok(Some(stored(id, "DOE", "Jane")))).expect("no error");
    assert_eq!(reported, Some(person(Some(id), "DOE", "Jane")));
}

#[test]
fn test_delete_person() {
    let id = id_of("5e29ca2d007a7cdb00832ed9");
    let pers = person(Some(id), "GRETRY", "André Modeste");
    assert_eq!(
        delete_command(&pers),
        StoreCommand::DeleteMatching {
            person_id: Some(id),
            nom: "GRETRY".to_owned(),
            prenom: "André Modeste".to_owned(),
        }
    );
    let deleted = found_person(Ok(Some(stored(id, "GRETRY", "André Modeste")))).expect("no error");
    assert_eq!(deleted, Some(pers));
}

#[test]
fn insert_then_list_holds_the_person_once() {
    let ins = InsertablePerson { nom: "VOLNAY".to_owned(), prenom: "Alexandre".to_owned() };
    let id = id_of("5e7ccb3a00afb51100faa21d");
    let other = id_of("5e29ca2d007a7cdb00832ed9");
    let added = added_person(ins, Ok(FieldValue::ObjectId(id))).unwrap();
    let listed = listed_persons(Ok(vec![
        stored(other, "GRETRY", "André Modeste"),
        stored(id, "VOLNAY", "Alexandre"),
    ]))
    .unwrap();
    let with_id: Vec<&Person> = listed.iter().filter(|p| p.id == Some(id)).collect();
    assert_eq!(with_id, vec![&added]);
    assert_eq!(listed[0], person(Some(other), "GRETRY", "André Modeste"));
}

#[test]
fn lookup_of_rendered_id_finds_the_added_person() {
    let ins = InsertablePerson { nom: "VOLNAY".to_owned(), prenom: "Alexandre".to_owned() };
    let id = Identifier { bytes: [0x5e, 0x29, 0xca, 0x2d, 0, 0x7a, 0x7c, 0xdb, 0, 0x83, 0x2e, 0xd9] };
    let added = added_person(ins, Ok(FieldValue::ObjectId(id))).unwrap();
    let text = added.id.unwrap().render();
    assert_eq!(lookup_command(&text), Ok(StoreCommand::FindById { id }));
    let found = found_person(Ok(Some(stored(id, "VOLNAY", "Alexandre")))).unwrap();
    assert_eq!(found, Some(added));
}

#[test]
fn lookup_of_malformed_id_is_refused() {
    assert_eq!(lookup_command("not-a-valid-id"), Err(MyError::InvalidIdentifier));
    assert_eq!(lookup_command(""), Err(MyError::InvalidIdentifier));
    assert_eq!(
        replace_command("not-a-valid-id", &person(None, "DOE", "Jane")),
        Err(MyError::InvalidIdentifier)
    );
}

#[test]
fn lookup_of_missing_id_finds_no_one() {
    let id = Identifier { bytes: [1; 12] };
    assert_eq!(lookup_command(&id.render()), Ok(StoreCommand::FindById { id }));
    assert_eq!(found_person(Ok(None)), Ok(None));
}

#[test]
fn replace_keeps_the_id_and_takes_the_new_names() {
    let id = id_of("5e7ccb3a00afb51100faa21d");
    let replacement = person(Some(Identifier { bytes: [9; 12] }), "DOE", "Jane");
    let cmd = replace_command(&id.render(), &replacement).unwrap();
    assert_eq!(
        cmd,
        StoreCommand::ReplaceById { id, nom: "DOE".to_owned(), prenom: "Jane".to_owned() }
    );
    let after = found_person(Ok(Some(stored(id, "DOE", "Jane")))).unwrap();
    assert_eq!(after, Some(person(Some(id), "DOE", "Jane")));
}

#[test]
fn replace_of_unknown_id_reports_no_one() {
    assert_eq!(found_person(Ok(None)), Ok(None));
}

#[test]
fn delete_then_lookup_finds_no_one() {
    let id = id_of("5e29ca2d007a7cdb00832ed9");
    let pers = person(Some(id), "GRETRY", "André Modeste");
    let deleted = found_person(Ok(Some(stored(id, "GRETRY", "André Modeste")))).unwrap();
    assert_eq!(deleted, Some(pers));
    assert_eq!(lookup_command("5e29ca2d007a7cdb00832ed9"), Ok(StoreCommand::FindById { id }));
    assert_eq!(found_person(Ok(None)), Ok(None));
}

#[test]
fn delete_of_absent_person_reports_no_one() {
    let pers = person(None, "GRETRY", "André Modeste");
    assert_eq!(
        delete_command(&pers),
        StoreCommand::DeleteMatching {
            person_id: None,
            nom: "GRETRY".to_owned(),
            prenom: "André Modeste".to_owned(),
        }
    );
    assert_eq!(found_person(Ok(None)), Ok(None));
}

#[test]
fn round_trip_failures_map_to_errors() {
    let ins = InsertablePerson { nom: "A".to_owned(), prenom: "B".to_owned() };
    assert_eq!(added_person(ins.clone(), Err(StoreFailure::Pool)), Err(MyError::PoolError));
    assert_eq!(added_person(ins, Err(StoreFailure::Store)), Err(MyError::StoreError));
    assert_eq!(listed_persons(Err(StoreFailure::Store)), Err(MyError::StoreError));
    assert_eq!(found_person(Err(StoreFailure::Pool)), Err(MyError::PoolError));
    assert_eq!(found_person(Err(StoreFailure::Store)), Err(MyError::StoreError));
}

#[test]
fn assigned_id_that_is_not_an_identifier_is_a_decode_error() {
    let ins = InsertablePerson { nom: "A".to_owned(), prenom: "B".to_owned() };
    assert_eq!(added_person(ins, Ok(FieldValue::Text("x".to_owned()))), Err(MyError::DecodeError));
}

#[test]
fn listing_with_one_bad_document_fails_whole() {
    let id = Identifier { bytes: [2; 12] };
    let bad = RawDocument { id: FieldValue::ObjectId(id), nom: FieldValue::Absent, prenom: FieldValue::Text("B".to_owned()) };
    let r = listed_persons(Ok(vec![stored(Identifier { bytes: [3; 12] }, "A", "B"), bad]));
    assert_eq!(r, Err(MyError::DecodeError));
}

#[test]
fn empty_listing_gives_no_persons() {
    assert_eq!(listed_persons(Ok(vec![])), Ok(vec![]));
}

#[test]
fn found_document_that_is_not_a_person_is_a_decode_error() {
    let doc = RawDocument { id: FieldValue::Other, nom: FieldValue::Text("A".to_owned()), prenom: FieldValue::Text("B".to_owned()) };
    assert_eq!(found_person(Ok(Some(doc))), Err(MyError::DecodeError));
}

#[test]
fn decode_accepts_absent_or_null_id() {
    let absent = RawDocument { id: FieldValue::Absent, nom: FieldValue::Text("A".to_owned()), prenom: FieldValue::Text("B".to_owned()) };
    assert_eq!(decode_person(&absent), Ok(person(None, "A", "B")));
    let null = RawDocument { id: FieldValue::Null, nom: FieldValue::Text("A".to_owned()), prenom: FieldValue::Text("B".to_owned()) };
    assert_eq!(decode_person(&null), Ok(person(None, "A", "B")));
    let number = RawDocument { id: FieldValue::Null, nom: FieldValue::Other, prenom: FieldValue::Text("B".to_owned()) };
    assert_eq!(decode_person(&number), Err(MyError::DecodeError));
}
