//! Records that are found by their identifier: dogs and cats, which together
//! are the pets, and files.

use vstd::prelude::*;

verus! {

/// A dog, known by its identifier.
#[derive(Debug, PartialEq, Eq)]
pub struct Dog {
    pub id: String,
}

/// A cat, known by its identifier.
#[derive(Debug, PartialEq, Eq)]
pub struct Cat {
    pub id: String,
}

/// A dog or a cat.
#[derive(Debug, PartialEq, Eq)]
pub enum Pet {
    Dog(Dog),
    Cat(Cat),
}

/// A file, known by its identifier.
#[derive(Debug, PartialEq, Eq)]
pub struct File {
    pub id: String,
}

/// The position of the first of `ids` that equals `id`, or the length of
/// `ids` where none does.
pub open spec fn first_position(ids: Seq<Seq<char>>, id: Seq<char>) -> int
    decreases ids.len(),
{
    if ids.len() == 0 {
        0
    } else if ids[0] == id {
        0
    } else {
        1 + first_position(ids.drop_first(), id)
    }
}

/// The identifiers of `dogs`, in order.
pub open spec fn dog_ids(dogs: Seq<Dog>) -> Seq<Seq<char>> {
    Seq::new(dogs.len(), |i: int| dogs[i].id@)
}

/// The identifiers of `cats`, in order.
pub open spec fn cat_ids(cats: Seq<Cat>) -> Seq<Seq<char>> {
    Seq::new(cats.len(), |i: int| cats[i].id@)
}

/// The first of `dogs` with the identifier `id`.
pub open spec fn dog_with_id(dogs: Seq<Dog>, id: Seq<char>) -> Option<Dog> {
    let at = first_position(dog_ids(dogs), id);
    if at < dogs.len() {
        Some(dogs[at])
    } else {
        None
    }
}

/// The first of `cats` with the identifier `id`.
pub open spec fn cat_with_id(cats: Seq<Cat>, id: Seq<char>) -> Option<Cat> {
    let at = first_position(cat_ids(cats), id);
    if at < cats.len() {
        Some(cats[at])
    } else {
        None
    }
}

/// The pet with the identifier `id`: a dog where a dog has it, else a cat.
pub open spec fn pet_with_id(dogs: Seq<Dog>, cats: Seq<Cat>, id: Seq<char>) -> Option<Pet> {
    match dog_with_id(dogs, id) {
        Some(dog) => Some(Pet::Dog(dog)),
        None => match cat_with_id(cats, id) {
            Some(cat) => Some(Pet::Cat(cat)),
            None => None,
        },
    }
}

/// `first_position` is the least position that holds `id`: nothing before it
/// does, and it does unless it is the length.
pub proof fn lemma_first_position(ids: Seq<Seq<char>>, id: Seq<char>)
    ensures
        0 <= first_position(ids, id) <= ids.len(),
        first_position(ids, id) < ids.len() ==> ids[first_position(ids, id)] == id,
        forall|j: int| 0 <= j < first_position(ids, id) ==> #[trigger] ids[j] != id,
    decreases ids.len(),
{
    if ids.len() > 0 && ids[0] != id {
        let rest = ids.drop_first();
        lemma_first_position(rest, id);
        assert forall|j: int| 0 <= j < first_position(ids, id) implies #[trigger] ids[j]
            != id by {
            if j > 0 {
                assert(rest[j - 1] == ids[j]);
            }
        }
    }
}

/// Where nothing before `at` holds `id` and `at` does or is the length,
/// `at` is the first position.
pub proof fn lemma_first_position_is(ids: Seq<Seq<char>>, id: Seq<char>, at: int)
    requires
        0 <= at <= ids.len(),
        at < ids.len() ==> ids[at] == id,
        forall|j: int| 0 <= j < at ==> #[trigger] ids[j] != id,
    ensures
        first_position(ids, id) == at,
{
    lemma_first_position(ids, id);
    let first = first_position(ids, id);
    if first < at {
        assert(ids[first] != id);
    }
}

/// Finds the first dog with the identifier `id`.
pub fn get_dog_by_id(dogs: &Vec<Dog>, id: &str) -> (found: Option<Dog>)
    ensures
        found == dog_with_id(dogs@, id@),
{
    let wanted: String = id.to_owned();
    let mut i: usize = 0;
    while i < dogs.len()
        invariant
            i <= dogs.len(),
            wanted@ == id@,
            forall|j: int| 0 <= j < i ==> #[trigger] dog_ids(dogs@)[j] != id@,
        decreases dogs.len() - i,
    {
        if dogs[i].id == wanted {
            proof {
                lemma_first_position_is(dog_ids(dogs@), id@, i as int);
            }
            return Some(Dog { id: dogs[i].id.clone() });
        }
        i = i + 1;
    }
    proof {
        lemma_first_position_is(dog_ids(dogs@), id@, dogs.len() as int);
    }
    None
}

/// Finds the first cat with the identifier `id`.
pub fn get_cat_by_id(cats: &Vec<Cat>, id: &str) -> (found: Option<Cat>)
    ensures
        found == cat_with_id(cats@, id@),
{
    let wanted: String = id.to_owned();
    let mut i: usize = 0;
    while i < cats.len()
        invariant
            i <= cats.len(),
            wanted@ == id@,
            forall|j: int| 0 <= j < i ==> #[trigger] cat_ids(cats@)[j] != id@,
        decreases cats.len() - i,
    {
        if cats[i].id == wanted {
            proof {
                lemma_first_position_is(cat_ids(cats@), id@, i as int);
            }
            return Some(Cat { id: cats[i].id.clone() });
        }
        i = i + 1;
    }
    proof {
        lemma_first_position_is(cat_ids(cats@), id@, cats.len() as int);
    }
    None
}

/// Finds the pet with the identifier `id`, looking among the dogs first and
/// among the cats only where no dog has it.
pub fn get_pet_by_id(dogs: &Vec<Dog>, cats: &Vec<Cat>, id: &str) -> (found: Option<Pet>)
    ensures
        found == pet_with_id(dogs@, cats@, id@),
{
    if let Some(dog) = get_dog_by_id(dogs, id) {
        return Some(Pet::Dog(dog));
    }
    if let Some(cat) = get_cat_by_id(cats, id) {
        return Some(Pet::Cat(cat));
    }
    None
}

/// The file that goes by the identifier `fileId`.
#[allow(non_snake_case)]
pub fn getFileById(fileId: String) -> (file: File)
    ensures
        file.id == fileId,
{
    File { id: fileId }
}

} // verus!
