//! The one entity this layer stores, and the forms it takes on the way in
//! and out.
use vstd::prelude::*;

use crate::identifier::Identifier;

verus! {

/// What a `Person` is, over mathematical values.
pub struct PersonModel {
    pub id: Option<Seq<u8>>,
    pub nom: Seq<char>,
    pub prenom: Seq<char>,
}

/// The model of an identifier that may be absent.
pub open spec fn id_model(id: Option<Identifier>) -> Option<Seq<u8>> {
    match id {
        Some(i) => Some(i@),
        None => None,
    }
}

/// A person: a name pair, and the identifier the store gave it once stored.
#[derive(Clone, Debug, PartialEq, Eq, PartialOrd, Ord)]
pub struct Person {
    pub id: Option<Identifier>,
    pub nom: String,
    pub prenom: String,
}

impl Person {
    pub open spec fn view(&self) -> PersonModel {
        PersonModel { id: id_model(self.id), nom: self.nom@, prenom: self.prenom@ }
    }
}

impl Default for Person {
    /// A person with no identifier and blank names.
    fn default() -> (r: Self)
        ensures
            r.id is None,
            r.nom@ == seq![' '],
            r.prenom@ == seq![' '],
    {
        let nom = String::from_str(" ");
        let prenom = String::from_str(" ");
        proof {
            reveal_strlit(" ");
        }
        Person { id: None, nom, prenom }
    }
}

/// The part of a person that is sent on insert: the store assigns the id.
#[derive(Clone, Debug)]
pub struct InsertablePerson {
    pub nom: String,
    pub prenom: String,
}

/// The insert form under its shorter name.
pub type InsertablePers = InsertablePerson;

/// One person's names on one line: `nom`, a space, `prenom`.
pub open spec fn name_line(nom: Seq<char>, prenom: Seq<char>) -> Seq<char> {
    nom + seq![' '] + prenom
}

impl InsertablePerson {
    /// Keeps the names of `person` and drops its identifier.
    pub fn from_person(person: Person) -> (r: InsertablePerson)
        ensures
            r.nom@ == person.nom@,
            r.prenom@ == person.prenom@,
    {
        InsertablePerson { nom: person.nom, prenom: person.prenom }
    }

    /// The names as one line: `nom`, a space, `prenom`.
    pub fn to_string(&self) -> (r: String)
        ensures
            r@ == name_line(self.nom@, self.prenom@),
    {
        let mut line = self.nom.clone();
        let space = " ";
        proof {
            reveal_strlit(" ");
        }
        line.append(space);
        line.append(self.prenom.as_str());
        line
    }
}

/// A sequence of persons, handed out as one value.
#[derive(Clone, Debug, PartialEq, Eq, PartialOrd, Ord)]
pub struct ListPersons {
    pub list_persons: Vec<Person>,
}

/// The lines of `ps`, one per person, in order.
pub open spec fn name_lines(ps: Seq<Person>) -> Seq<Seq<char>> {
    ps.map_values(|p: Person| name_line(p.nom@, p.prenom@))
}

/// The lines joined, each one followed by a line break.
pub open spec fn joined_lines(lines: Seq<Seq<char>>) -> Seq<char>
    decreases lines.len(),
{
    if lines.len() == 0 {
        Seq::empty()
    } else {
        joined_lines(lines.drop_last()) + lines.last() + seq!['\n']
    }
}

impl ListPersons {
    pub fn new(vec_pers: Vec<Person>) -> (r: ListPersons)
        ensures
            r.list_persons@ == vec_pers@,
    {
        ListPersons { list_persons: vec_pers }
    }

    /// One line of names per person, in order.
    pub fn to_vec_string(&self) -> (r: Vec<String>)
        ensures
            r@.len() == self.list_persons@.len(),
            forall|i: int|
                0 <= i < r@.len() ==> #[trigger] r@[i]@ == name_lines(self.list_persons@)[i],
    {
        let mut lines: Vec<String> = Vec::new();
        let mut i: usize = 0;
        while i < self.list_persons.len()
            invariant
                i <= self.list_persons@.len(),
                lines@.len() == i,
                forall|j: int|
                    0 <= j < i ==> #[trigger] lines@[j]@ == name_lines(self.list_persons@)[j],
            decreases self.list_persons@.len() - i,
        {
            let pers = &self.list_persons[i];
            let names = InsertablePerson { nom: pers.nom.clone(), prenom: pers.prenom.clone() };
            let line = names.to_string();
            lines.push(line);
            i = i + 1;
        }
        lines
    }

    /// All the lines of names, each followed by a line break.
    pub fn vec_to_string(&self) -> (r: String)
        ensures
            r@ == joined_lines(name_lines(self.list_persons@)),
    {
        let lines = self.to_vec_string();
        let ghost all = name_lines(self.list_persons@);
        let mut text = String::new();
        let newline = "\n";
        proof {
            reveal_strlit("\n");
        }
        let mut i: usize = 0;
        while i < lines.len()
            invariant
                i <= lines@.len(),
                lines@.len() == all.len(),
                forall|j: int| 0 <= j < lines@.len() ==> #[trigger] lines@[j]@ == all[j],
                text@ == joined_lines(all.take(i as int)),
                newline@ == seq!['\n'],
            decreases lines@.len() - i,
        {
            text.append(lines[i].as_str());
            text.append(newline);
            proof {
                assert(all.take(i + 1).drop_last() =~= all.take(i as int));
            }
            i = i + 1;
        }
        proof {
            assert(all.take(i as int) =~= all);
        }
        text
    }
}

impl Default for ListPersons {
    /// An empty list.
    fn default() -> (r: Self)
        ensures
            r.list_persons@.len() == 0,
    {
        ListPersons { list_persons: Vec::new() }
    }
}

} // verus!
