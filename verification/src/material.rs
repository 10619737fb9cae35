use vstd::prelude::*;

verus! {

/// Handle of a registered material. Id 0 is the default material.
#[derive(Clone, Copy, PartialEq, Eq, Structural, Debug, Hash)]
pub struct MaterialId(pub usize);

/// The material every draw command uses unless it names another.
pub open spec fn default_material() -> MaterialId {
    MaterialId(0)
}

/// Hands out material ids 1, 2, 3, ... in order (0 is the default
/// material).
pub struct MaterialIds {
    next: usize,
}

impl MaterialIds {
    #[verifier::type_invariant]
    spec fn well_formed(self) -> bool {
        self.next >= 1
    }

    /// The id the next allocation returns.
    pub closed spec fn next_id(self) -> usize {
        self.next
    }

    /// The first id handed out is 1.
    pub fn new() -> (ids: Self)
        ensures
            ids.next_id() == 1,
    {
        MaterialIds { next: 1 }
    }

    /// A fresh id: the next one in sequence.
    pub fn allocate(&mut self) -> (id: MaterialId)
        requires
            old(self).next_id() < usize::MAX,
        ensures
            id == MaterialId(old(self).next_id()),
            final(self).next_id() == old(self).next_id() + 1,
            id != default_material(),
    {
        proof {
            use_type_invariant(&*self);
        }
        let id = MaterialId(self.next);
        self.next = self.next + 1;
        id
    }

    /// The id the next allocation returns.
    pub fn peek(&self) -> (n: usize)
        ensures
            n == self.next_id(),
            n >= 1,
    {
        proof {
            use_type_invariant(self);
        }
        self.next
    }
}

} // verus!
