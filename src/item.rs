use vstd::prelude::*;
use vstd::string::StrSliceExecFns;

verus! {

/// Species tag of a pet, kept as the text the store holds.
#[derive(Debug, PartialEq, Clone)]
pub struct PetKind(pub String);

/// A pet record. `id` is `-1` until the store has assigned one.
#[derive(Debug, PartialEq, Clone)]
pub struct Pet {
    pub id: i64,
    pub name: String,
    pub age: i64,
    pub kind: PetKind,
}

/// The id that a record carries before the store has persisted it.
pub const UNSAVED_ID: i64 = -1;

/// The text of the tag that selects the dog image endpoint.
pub open spec fn dog_tag() -> Seq<char> {
    seq!['d', 'o', 'g']
}

/// The text of the tag that the add form keeps as a cat.
pub open spec fn cat_tag() -> Seq<char> {
    seq!['c', 'a', 't']
}

/// Character-wise equality of two texts.
pub fn same_text(a: &str, b: &str) -> (r: bool)
    ensures
        r == (a@ == b@),
{
    let n = a.unicode_len();
    let m = b.unicode_len();
    if n != m {
        return false;
    }
    let mut i: usize = 0;
    while i < n
        invariant
            n == a@.len(),
            m == b@.len(),
            n == m,
            i <= n,
            forall|j: int| 0 <= j < i ==> a@[j] == b@[j],
        decreases n - i,
    {
        if a.get_char(i) != b.get_char(i) {
            return false;
        }
        i = i + 1;
    }
    proof {
        assert(a@ =~= b@);
    }
    true
}

impl PetKind {
    pub fn new(kind: String) -> (r: PetKind)
        ensures
            r.0 == kind,
    {
        PetKind(kind)
    }

    pub fn inner(&self) -> (r: &str)
        ensures
            r@ == self.0@,
    {
        self.0.as_str()
    }

    /// Whether this tag selects the dog image endpoint.
    pub open spec fn is_dog(&self) -> bool {
        self.0@ == dog_tag()
    }

    pub fn is_dog_kind(&self) -> (r: bool)
        ensures
            r == self.is_dog(),
    {
        let dog = "dog";
        proof {
            reveal_strlit("dog");
            assert(dog@ =~= dog_tag());
        }
        same_text(self.0.as_str(), dog)
    }

    /// A copy of this tag with the same text.
    pub fn duplicate(&self) -> (r: PetKind)
        ensures
            r == *self,
    {
        PetKind(self.0.clone())
    }
}

impl Pet {
    pub fn new(id: i64, name: String, age: i64, kind: PetKind) -> (r: Pet)
        ensures
            r == (Pet { id, name, age, kind }),
    {
        Pet { id, name, age, kind }
    }

    pub fn inner(self) -> (r: (i64, String, i64, PetKind))
        ensures
            r == (self.id, self.name, self.age, self.kind),
    {
        (self.id, self.name, self.age, self.kind)
    }

    pub fn id(&self) -> (r: i64)
        ensures
            r == self.id,
    {
        self.id
    }
}

/// The cat endpoint's envelope: a list whose first element carries the image url.
#[derive(Debug, PartialEq)]
pub struct CatJSON {
    pub item: CatJSONInner,
}

/// The first element of the cat endpoint's list.
#[derive(Debug, PartialEq)]
pub struct CatJSONInner {
    pub url: String,
}

/// The dog endpoint's envelope: the image url in `message`.
#[derive(Debug, PartialEq)]
pub struct DogJSON {
    pub message: String,
}

impl CatJSON {
    pub fn new(item: CatJSONInner) -> (r: CatJSON)
        ensures
            r.item == item,
    {
        CatJSON { item }
    }

    pub fn inner(self) -> (r: CatJSONInner)
        ensures
            r == self.item,
    {
        self.item
    }
}

impl DogJSON {
    pub fn new(message: String) -> (r: DogJSON)
        ensures
            r.message == message,
    {
        DogJSON { message }
    }

    pub fn inner(self) -> (r: String)
        ensures
            r == self.message,
    {
        self.message
    }
}

} // verus!
