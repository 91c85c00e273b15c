//! The in-flight registry: the escrows for which a settlement attempt is
//! outstanding.

use vstd::hash_set::StringHashSet;
use vstd::prelude::*;

verus! {

/// The set of escrow identifiers that are being settled right now.
///
/// An identifier enters the set just before its settlement task starts and
/// leaves it when that task ends, however it ends.
pub struct InFlightRegistry {
    ids: StringHashSet,
}

impl View for InFlightRegistry {
    type V = Set<Seq<char>>;

    closed spec fn view(&self) -> Set<Seq<char>> {
        self.ids@
    }
}

impl InFlightRegistry {
    /// A registry with nothing in flight.
    pub fn new() -> (registry: InFlightRegistry)
        ensures
            registry@ == Set::<Seq<char>>::empty(),
    {
        InFlightRegistry { ids: StringHashSet::new() }
    }

    /// Whether a settlement of `id` is outstanding.
    pub fn contains(&self, id: &str) -> (present: bool)
        ensures
            present == self@.contains(id@),
    {
        self.ids.contains(id)
    }

    /// Test and insert in one step: `id` is in flight afterwards, and the
    /// result says whether this call put it there. `false` means that another
    /// task holds the escrow.
    pub fn try_insert(&mut self, id: &str) -> (inserted: bool)
        ensures
            inserted == !old(self)@.contains(id@),
            final(self)@ == old(self)@.insert(id@),
    {
        self.ids.insert(id.to_owned())
    }

    /// Takes `id` out of the registry, whether or not it was there. The
    /// result says whether it was.
    pub fn release(&mut self, id: &str) -> (present: bool)
        ensures
            present == old(self)@.contains(id@),
            final(self)@ == old(self)@.remove(id@),
    {
        self.ids.remove(id)
    }

    /// Whether nothing is in flight.
    pub fn is_empty(&self) -> (empty: bool)
        ensures
            empty == self@.is_empty(),
    {
        self.ids.is_empty()
    }
}

} // verus!
