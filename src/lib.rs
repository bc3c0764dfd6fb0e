//! Policy-gated adoption of pets.
//!
//! An adoption first evaluates every check of an adoption policy, waits for all
//! of them, and only when none failed constructs the adopted pet. The
//! asynchronous driving of checks and construction lives outside this crate;
//! the crate holds the data, the decisions and the construction itself.
use vstd::prelude::*;

pub mod gate;

use crate::gate::adoption_outcome;

verus! {

/// The single, undifferentiated adoption failure: a policy check failed, or
/// construction failed.
#[derive(Debug, Clone, Copy, PartialEq, Eq, Structural)]
pub struct AdoptionError;

/// The identifier of a dog.
#[derive(Debug)]
pub struct DogId(pub String);

impl View for DogId {
    type V = Seq<char>;

    open spec fn view(&self) -> Seq<char> {
        self.0@
    }
}

impl Clone for DogId {
    fn clone(&self) -> (r: Self)
        ensures
            r == *self,
    {
        DogId(self.0.clone())
    }
}

impl PartialEq for DogId {
    fn eq(&self, other: &DogId) -> (r: bool) {
        self.0 == other.0
    }
}

impl vstd::std_specs::cmp::PartialEqSpecImpl for DogId {
    open spec fn obeys_eq_spec() -> bool {
        true
    }

    open spec fn eq_spec(&self, other: &DogId) -> bool {
        self@ == other@
    }
}

/// A pitbull, adopted under the given identifier.
pub struct Pitbull {
    pub id: DogId,
}

impl Pitbull {
    /// Constructs the pitbull named by `id`. This construction never fails.
    pub fn construct(id: &DogId) -> (r: Result<Pitbull, AdoptionError>)
        ensures
            built_from(id@, r),
    {
        Ok(Pitbull { id: id.clone() })
    }
}

/// Whether `r` is a successful construction of the pitbull named `id`.
pub open spec fn built_from(id: Seq<char>, r: Result<Pitbull, AdoptionError>) -> bool {
    r is Ok && r->Ok_0.id@ == id
}

/// With no policy checks, adopting a pitbull succeeds exactly when its
/// construction does, and yields a pitbull carrying the identifier asked for.
pub proof fn lemma_no_checks_adopts_pitbull(
    results: Vec<Result<(), AdoptionError>>,
    id: DogId,
    construction: Result<Pitbull, AdoptionError>,
)
    requires
        results@.len() == 0,
        built_from(id@, construction),
    ensures
        adoption_outcome(results@, construction) is Ok,
        adoption_outcome(results@, construction)->Ok_0.id@ == id@,
{
    gate::lemma_no_checks_constructs(results, construction);
}

/// The person adopting a dog.
pub struct Person {
    name: String,
}

impl View for Person {
    type V = Seq<char>;

    /// A person is seen as their name.
    closed spec fn view(&self) -> Seq<char> {
        self.name@
    }
}

impl Person {
    pub fn new(name: String) -> (r: Person)
        ensures
            r@ == name@,
    {
        Person { name }
    }

    pub fn name(&self) -> (r: &str)
        ensures
            r@ == self@,
    {
        self.name.as_str()
    }
}

} // verus!
