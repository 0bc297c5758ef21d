//! The pluggable visibility-checking capability.

use vstd::prelude::*;
use crate::item::Item;

verus! {

/// The opaque failure of one visibility check. It carries no detail: the
/// caller only learns that the check itself failed, which is distinct from
/// a successful "not visible" decision.
#[derive(Clone, Copy, PartialEq, Eq, Structural, Debug)]
pub struct CheckError;

/// The capability deciding whether the requesting context may see an item.
///
/// One operation: `can_see` takes read-only references to the checker and
/// to one item, borrowed for exactly the duration of the call, and yields a
/// decision (`Ok(true)` visible, `Ok(false)` not visible) or an opaque
/// failure. A checker never mutates the item, so its decision is a function
/// of the checker's state and the item alone: `spec_can_see` names that
/// function, and every implementation defines it.
pub trait Provider {
    /// The decision this checker makes for a given item.
    spec fn spec_can_see(&self, item: Item) -> Result<bool, CheckError>;

    /// Ask whether the requesting context may see `item`.
    fn can_see(&self, item: &Item) -> (r: Result<bool, CheckError>)
        ensures
            r == self.spec_can_see(*item),
    ;
}

/// A checker that lets every item be seen.
pub struct AllowAll;

impl Provider for AllowAll {
    open spec fn spec_can_see(&self, item: Item) -> Result<bool, CheckError> {
        Ok(true)
    }

    fn can_see(&self, item: &Item) -> (r: Result<bool, CheckError>) {
        Ok(true)
    }
}

/// A checker that lets no item be seen, without ever failing.
pub struct DenyAll;

impl Provider for DenyAll {
    open spec fn spec_can_see(&self, item: Item) -> Result<bool, CheckError> {
        Ok(false)
    }

    fn can_see(&self, item: &Item) -> (r: Result<bool, CheckError>) {
        Ok(false)
    }
}

/// A checker whose every check fails.
pub struct FailAll;

impl Provider for FailAll {
    open spec fn spec_can_see(&self, item: Item) -> Result<bool, CheckError> {
        Err(CheckError)
    }

    fn can_see(&self, item: &Item) -> (r: Result<bool, CheckError>) {
        Err(CheckError)
    }
}

/// One entry of a [`TableProvider`]'s rule table.
#[derive(Clone, Copy, PartialEq, Eq, Structural, Debug)]
pub enum Decision {
    /// The item may be shown.
    Visible,
    /// The item is withheld; this is not a failure.
    Hidden,
    /// The check itself fails for this item.
    Fail,
}

/// A checker driven by a fixed rule table, indexed by item identifier.
/// An item whose identifier lies outside the table cannot be decided, so
/// its check fails.
pub struct TableProvider {
    pub table: Vec<Decision>,
}

impl TableProvider {
    /// A checker that applies `table[id]` to the item with identifier `id`.
    pub fn new(table: Vec<Decision>) -> (r: TableProvider)
        ensures
            r.table@ == table@,
    {
        TableProvider { table }
    }
}

impl Provider for TableProvider {
    open spec fn spec_can_see(&self, item: Item) -> Result<bool, CheckError> {
        if item.id < self.table@.len() {
            match self.table@[item.id as int] {
                Decision::Visible => Ok(true),
                Decision::Hidden => Ok(false),
                Decision::Fail => Err(CheckError),
            }
        } else {
            Err(CheckError)
        }
    }

    fn can_see(&self, item: &Item) -> (r: Result<bool, CheckError>) {
        if item.id < self.table.len() {
            match self.table[item.id] {
                Decision::Visible => Ok(true),
                Decision::Hidden => Ok(false),
                Decision::Fail => Err(CheckError),
            }
        } else {
            Err(CheckError)
        }
    }
}

} // verus!
