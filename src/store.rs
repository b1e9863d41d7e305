//! What the document store does with each command, as a relation between the
//! collection before, the collection after and the reply; and the laws that
//! the repository calls obey against any store that behaves so.
use vstd::prelude::*;

use crate::document::{decode_model, person_document, DocModel, FieldModel};
use crate::error::{MyError, StoreFailure};
use crate::identifier::{hex_decode, hex_encode, is_identifier_text, lemma_render_parses};
use crate::person::PersonModel;
use crate::repository::{
    added_model, all_decode, found_model, listed_model, lookup_model, replace_model, CommandModel,
};

verus! {

/// The collection: the names kept under each identifier.
pub type Collection = Map<Seq<u8>, (Seq<char>, Seq<char>)>;

/// The document kept under `k`.
pub open spec fn stored_document(k: Seq<u8>, names: (Seq<char>, Seq<char>)) -> DocModel {
    person_document(PersonModel { id: Some(k), nom: names.0, prenom: names.1 })
}

/// The person kept under `k`.
pub open spec fn stored_person(k: Seq<u8>, names: (Seq<char>, Seq<char>)) -> PersonModel {
    PersonModel { id: Some(k), nom: names.0, prenom: names.1 }
}

/// An insert of `nom` and `prenom` on `s` gives `s2`, and the store reports
/// `assigned` as the new `_id`: a new twelve-byte identifier.
pub open spec fn answers_insert(
    s: Collection,
    nom: Seq<char>,
    prenom: Seq<char>,
    s2: Collection,
    assigned: FieldModel,
) -> bool {
    match assigned {
        FieldModel::ObjectId(k) => k.len() == 12 && !s.contains_key(k) && s2 == s.insert(
            k,
            (nom, prenom),
        ),
        _ => false,
    }
}

/// A listing of `s` returns `docs`: one document per stored identifier, in
/// the order `keys` gives, each identifier once.
pub open spec fn answers_list(s: Collection, keys: Seq<Seq<u8>>, docs: Seq<DocModel>) -> bool {
    &&& keys.no_duplicates()
    &&& keys.to_set() == s.dom()
    &&& docs == keys.map_values(|k: Seq<u8>| stored_document(k, s[k]))
}

/// Whether the document kept under the record's id equals the whole record.
pub open spec fn matches_record(s: Collection, p: PersonModel) -> bool {
    match p.id {
        Some(k) => s.contains_key(k) && s[k] == (p.nom, p.prenom),
        None => false,
    }
}

/// A lookup, replace or delete `cmd` on `s` gives `s2`, and the store returns
/// `found`. A replace returns the document as it is after the replace; a
/// delete returns it as it was.
pub open spec fn answers_one(
    s: Collection,
    cmd: CommandModel,
    s2: Collection,
    found: Option<DocModel>,
) -> bool {
    match cmd {
        CommandModel::FindById(k) => s2 == s && found == (if s.contains_key(k) {
            Some(stored_document(k, s[k]))
        } else {
            None
        }),
        CommandModel::ReplaceById(k, nom, prenom) => if s.contains_key(k) {
            s2 == s.insert(k, (nom, prenom)) && found == Some(stored_document(k, (nom, prenom)))
        } else {
            s2 == s && found is None
        },
        CommandModel::DeleteMatching(p) => if matches_record(s, p) {
            s2 == s.remove(p.id->Some_0) && found == Some(
                stored_document(p.id->Some_0, s[p.id->Some_0]),
            )
        } else {
            s2 == s && found is None
        },
        _ => false,
    }
}

/// A stored document always reads back as the stored person.
pub proof fn lemma_stored_decodes(k: Seq<u8>, names: (Seq<char>, Seq<char>))
    ensures
        decode_model(stored_document(k, names)) == Some(stored_person(k, names)),
{
}

/// The outcome of a lookup of `k` on `s`.
proof fn lemma_lookup(s: Collection, k: Seq<u8>, s2: Collection, found: Option<DocModel>)
    requires
        k.len() == 12,
        answers_one(s, CommandModel::FindById(k), s2, found),
    ensures
        lookup_model(hex_encode(k)) == Ok::<CommandModel, MyError>(CommandModel::FindById(k)),
        s.contains_key(k) ==> found_model(Ok(found)) == Ok::<Option<PersonModel>, MyError>(
            Some(stored_person(k, s[k])),
        ),
        !s.contains_key(k) ==> found_model(Ok(found)) == Ok::<Option<PersonModel>, MyError>(
            None,
        ),
{
    lemma_render_parses(k);
    if s.contains_key(k) {
        lemma_stored_decodes(k, s[k]);
    }
}

/// Adding a person gives it a new identifier and keeps its names; a listing
/// taken right after holds that person exactly once.
pub proof fn lemma_insert_round_trip(
    s: Collection,
    nom: Seq<char>,
    prenom: Seq<char>,
    s1: Collection,
    assigned: FieldModel,
    keys: Seq<Seq<u8>>,
    docs: Seq<DocModel>,
)
    requires
        answers_insert(s, nom, prenom, s1, assigned),
        answers_list(s1, keys, docs),
    ensures
        added_model(nom, prenom, Ok(assigned)) is Ok,
        ({
            let p = added_model(nom, prenom, Ok(assigned))->Ok_0;
            &&& p.id is Some
            &&& p.id->Some_0.len() == 12
            &&& p.nom == nom
            &&& p.prenom == prenom
            &&& listed_model(Ok::<Seq<DocModel>, StoreFailure>(docs)) is Ok
            &&& {
                let ps = listed_model(Ok::<Seq<DocModel>, StoreFailure>(docs))->Ok_0;
                &&& exists|i: int| 0 <= i < ps.len() && ps[i] == p
                &&& forall|i: int| 0 <= i < ps.len() && (#[trigger] ps[i]).id == p.id ==> ps[i] == p
            }
        }),
{
    let k = assigned->ObjectId_0;
    let p = stored_person(k, (nom, prenom));
    assert forall|i: int| 0 <= i < docs.len() implies (#[trigger] decode_model(docs[i])) is Some by {
        lemma_stored_decodes(keys[i], s1[keys[i]]);
    }
    assert(all_decode(docs));
    let ps = listed_model(Ok::<Seq<DocModel>, StoreFailure>(docs))->Ok_0;
    assert forall|i: int| 0 <= i < ps.len() implies ps[i] == stored_person(
        keys[i],
        s1[keys[i]],
    ) by {
        lemma_stored_decodes(keys[i], s1[keys[i]]);
    }
    assert(s1.dom().contains(k));
    assert(keys.to_set().contains(k));
    assert(keys.contains(k));
    let j = choose|j: int| 0 <= j < keys.len() && keys[j] == k;
    assert(ps[j] == p);
    assert forall|i: int| 0 <= i < ps.len() && (#[trigger] ps[i]).id == p.id implies ps[i] == p by {
        assert(keys[i] == k);
    }
}

/// Looking up the rendered identifier of a person just added finds that
/// person.
pub proof fn lemma_lookup_after_insert(
    s: Collection,
    nom: Seq<char>,
    prenom: Seq<char>,
    s1: Collection,
    k: Seq<u8>,
    s2: Collection,
    found: Option<DocModel>,
)
    requires
        answers_insert(s, nom, prenom, s1, FieldModel::ObjectId(k)),
        answers_one(s1, CommandModel::FindById(k), s2, found),
    ensures
        added_model(nom, prenom, Ok(FieldModel::ObjectId(k))) == Ok::<PersonModel, MyError>(
            stored_person(k, (nom, prenom)),
        ),
        lookup_model(hex_encode(k)) == Ok::<CommandModel, MyError>(CommandModel::FindById(k)),
        found_model(Ok(found)) == Ok::<Option<PersonModel>, MyError>(
            Some(stored_person(k, (nom, prenom))),
        ),
{
    assert(s1.contains_key(k));
    lemma_lookup(s1, k, s2, found);
}

/// Looking up the rendered form of an identifier that nothing is stored
/// under finds no one.
pub proof fn lemma_missing_id(s: Collection, k: Seq<u8>, s2: Collection, found: Option<DocModel>)
    requires
        k.len() == 12,
        !s.contains_key(k),
        answers_one(s, CommandModel::FindById(k), s2, found),
    ensures
        lookup_model(hex_encode(k)) == Ok::<CommandModel, MyError>(CommandModel::FindById(k)),
        found_model(Ok(found)) == Ok::<Option<PersonModel>, MyError>(None),
{
    lemma_lookup(s, k, s2, found);
}

/// Replacing the names under a stored identifier, then looking it up, finds
/// the new names under the same identifier. The replace itself reports the
/// same person.
pub proof fn lemma_replace_then_lookup(
    s: Collection,
    text: Seq<char>,
    replacement: PersonModel,
    s1: Collection,
    f1: Option<DocModel>,
    s2: Collection,
    f2: Option<DocModel>,
)
    requires
        is_identifier_text(text),
        s.contains_key(hex_decode(text)),
        answers_one(
            s,
            CommandModel::ReplaceById(hex_decode(text), replacement.nom, replacement.prenom),
            s1,
            f1,
        ),
        answers_one(s1, CommandModel::FindById(hex_decode(text)), s2, f2),
    ensures
        replace_model(text, replacement) == Ok::<CommandModel, MyError>(
            CommandModel::ReplaceById(hex_decode(text), replacement.nom, replacement.prenom),
        ),
        lookup_model(text) == Ok::<CommandModel, MyError>(CommandModel::FindById(hex_decode(text))),
        found_model(Ok(f1)) == Ok::<Option<PersonModel>, MyError>(
            Some(stored_person(hex_decode(text), (replacement.nom, replacement.prenom))),
        ),
        found_model(Ok(f2)) == Ok::<Option<PersonModel>, MyError>(
            Some(stored_person(hex_decode(text), (replacement.nom, replacement.prenom))),
        ),
{
    let k = hex_decode(text);
    let names = (replacement.nom, replacement.prenom);
    lemma_stored_decodes(k, names);
    assert(s1.contains_key(k));
    assert(s1[k] == names);
}

/// A delete of the record stored under an identifier reports that record;
/// once it has, looking the identifier up finds no one.
pub proof fn lemma_delete_removes(
    s: Collection,
    p: PersonModel,
    s1: Collection,
    f1: Option<DocModel>,
    s2: Collection,
    f2: Option<DocModel>,
)
    requires
        p.id is Some,
        p.id->Some_0.len() == 12,
        answers_one(s, CommandModel::DeleteMatching(p), s1, f1),
        answers_one(s1, CommandModel::FindById(p.id->Some_0), s2, f2),
    ensures
        matches_record(s, p) ==> found_model(Ok(f1)) == Ok::<Option<PersonModel>, MyError>(
            Some(p),
        ),
        found_model(Ok(f1)) is Ok && found_model(Ok(f1))->Ok_0 is Some ==> found_model(Ok(f2))
            == Ok::<Option<PersonModel>, MyError>(None),
        lookup_model(hex_encode(p.id->Some_0)) == Ok::<CommandModel, MyError>(
            CommandModel::FindById(p.id->Some_0),
        ),
{
    let k = p.id->Some_0;
    if matches_record(s, p) {
        lemma_stored_decodes(k, s[k]);
        assert(!s1.contains_key(k));
    }
    lemma_lookup(s1, k, s2, f2);
}

/// Deleting a record that is not stored as it is (never added, or already
/// deleted) reports no one and changes nothing.
pub proof fn lemma_delete_absent(s: Collection, p: PersonModel, s1: Collection, f1: Option<DocModel>)
    requires
        !matches_record(s, p),
        answers_one(s, CommandModel::DeleteMatching(p), s1, f1),
    ensures
        found_model(Ok(f1)) == Ok::<Option<PersonModel>, MyError>(None),
        s1 == s,
{
}

/// Deleting the same record twice: the second delete reports no one.
pub proof fn lemma_delete_twice(
    s: Collection,
    p: PersonModel,
    s1: Collection,
    f1: Option<DocModel>,
    s2: Collection,
    f2: Option<DocModel>,
)
    requires
        answers_one(s, CommandModel::DeleteMatching(p), s1, f1),
        answers_one(s1, CommandModel::DeleteMatching(p), s2, f2),
    ensures
        found_model(Ok(f2)) == Ok::<Option<PersonModel>, MyError>(None),
{
    if matches_record(s, p) {
        assert(!s1.contains_key(p.id->Some_0));
    }
    lemma_delete_absent(s1, p, s2, f2);
}

} // verus!
