use vstd::prelude::*;

verus! {

/// A subscriber to position updates, known by its number in reports.
pub struct Observer {
    id: u32,
}

impl Observer {
    /// The observer's number as a spec value.
    pub closed spec fn spec_id(&self) -> u32 {
        self.id
    }

    /// An observer with number `id`.
    pub fn new(id: u32) -> (observer: Self)
        ensures
            observer.spec_id() == id,
    {
        Observer { id }
    }

    /// The number the observer reports under.
    pub fn id(&self) -> (id: u32)
        ensures
            id == self.spec_id(),
    {
        self.id
    }
}

} // verus!
