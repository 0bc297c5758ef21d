//! The domain entity being filtered.

use vstd::prelude::*;

verus! {

/// A domain item. Its essential attribute is the soft-deletion flag: a
/// deleted item stays in the owning collection but must be dropped before
/// any visibility check. The identifier only serves to tell items apart.
#[derive(Clone, Copy, PartialEq, Eq, Structural, Debug)]
pub struct Item {
    pub id: usize,
    pub deleted: bool,
}

impl Item {
    /// A fresh, non-deleted item.
    pub fn new(id: usize) -> (r: Item)
        ensures
            r.id == id,
            !r.deleted,
    {
        Item { id, deleted: false }
    }

    /// An item already marked as soft-deleted.
    pub fn new_deleted(id: usize) -> (r: Item)
        ensures
            r.id == id,
            r.deleted,
    {
        Item { id, deleted: true }
    }

    /// Whether the item is soft-deleted.
    pub fn is_deleted(&self) -> (r: bool)
        ensures
            r == self.deleted,
    {
        self.deleted
    }
}

} // verus!
