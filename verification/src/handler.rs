//! The request handler: owns the item collection for one request, drops
//! the soft-deleted items, runs the writer, and maps its outcome to an
//! HTTP status.

use vstd::prelude::*;
use crate::item::Item;
use crate::provider::Provider;
use crate::writer::{all_checks_ok, write_items};

verus! {

broadcast use vstd::prelude::Seq::lemma_filter_push;

/// The items of `items` that are not soft-deleted, in input order: the
/// only items a visibility checker may ever be asked about.
pub open spec fn surviving(items: Seq<Item>) -> Seq<Item> {
    items.filter(|it: Item| !it.deleted)
}

/// Drop the soft-deleted items, keeping the rest in input order. This runs
/// strictly before any visibility check.
pub fn filter_deleted(items: &Vec<Item>) -> (r: Vec<Item>)
    ensures
        r@ == surviving(items@),
{
    let mut kept: Vec<Item> = Vec::new();
    let mut j: usize = 0;
    while j < items.len()
        invariant
            j <= items.len(),
            kept@ == surviving(items@.subrange(0, j as int)),
        decreases items.len() - j,
    {
        let item = items[j];
        proof {
            let sub = items@.subrange(0, j as int);
            assert(items@.subrange(0, j as int + 1) =~= sub.push(items@[j as int]));
        }
        if !item.is_deleted() {
            kept.push(item);
        }
        j = j + 1;
    }
    proof {
        assert(items@.subrange(0, items@.len() as int) =~= items@);
    }
    kept
}

/// The two responses the endpoint can give.
#[derive(Clone, Copy, PartialEq, Eq, Structural, Debug)]
pub enum HttpStatus {
    /// The whole sequence was processed; every surviving item was either
    /// emitted or skipped.
    Success,
    /// Some visibility check failed.
    ServerError,
}

impl HttpStatus {
    /// The numeric status code of the response.
    pub fn code(&self) -> (r: u16)
        ensures
            *self is Success ==> r == 200,
            *self is ServerError ==> r == 500,
    {
        match self {
            HttpStatus::Success => 200,
            HttpStatus::ServerError => 500,
        }
    }
}

/// Serve one request: drop the soft-deleted items, hand the survivors and
/// the shared checker handle to the writer, and answer success exactly
/// when no visibility check failed. Deleted items never reach the checker.
pub fn handle_request<P: Provider>(p: &P, items: &Vec<Item>) -> (r: HttpStatus)
    ensures
        r is Success <==> all_checks_ok(p, surviving(items@)),
{
    let kept = filter_deleted(items);
    match write_items(p, &kept) {
        Ok(_) => HttpStatus::Success,
        Err(_) => HttpStatus::ServerError,
    }
}

/// Deleted items never reach the checker: what survives the deletion
/// filter holds no deleted item, holds every non-deleted item of the
/// input, and cannot be longer than the input.
pub proof fn lemma_surviving_exact(items: Seq<Item>)
    ensures
        forall|i: int|
            0 <= i < surviving(items).len() ==> !(#[trigger] surviving(items)[i]).deleted,
        forall|i: int|
            0 <= i < items.len() && !items[i].deleted ==> surviving(items).contains(items[i]),
        surviving(items).len() <= items.len(),
{
    broadcast use vstd::seq_lib::group_filter_ensures;

    assert(surviving(items) == items.filter(|it: Item| !it.deleted));
}

/// The deletion filter keeps the original relative order: splitting the
/// input anywhere splits the surviving items at the matching place.
pub proof fn lemma_surviving_keeps_order(left: Seq<Item>, right: Seq<Item>)
    ensures
        surviving(left + right) == surviving(left) + surviving(right),
{
    broadcast use vstd::prelude::Seq::filter_distributes_over_add;

    assert(surviving(left + right) == (left + right).filter(|it: Item| !it.deleted));
}

} // verus!
