//! The core algorithm: walk a sequence of items, ask the checker about
//! each in input order, emit the visible ones, and fail fast on the first
//! checker error.

use vstd::prelude::*;
use crate::item::Item;
use crate::provider::{CheckError, Provider};

verus! {

broadcast use vstd::prelude::Seq::lemma_filter_push;

/// Every item of `items` gets a successful decision (visible or not) from
/// the checker `p`: no check fails.
pub open spec fn all_checks_ok<P: Provider>(p: &P, items: Seq<Item>) -> bool {
    forall|i: int| 0 <= i < items.len() ==> (#[trigger] p.spec_can_see(items[i])) is Ok
}

/// The subsequence of `items` that the checker `p` decides are visible, in
/// input order.
pub open spec fn visible_to<P: Provider>(p: &P, items: Seq<Item>) -> Seq<Item> {
    items.filter(|it: Item| p.spec_can_see(it) == Ok::<bool, CheckError>(true))
}

/// Walk `items` in order; for each, ask `p` for a decision. A visible item
/// is emitted, a not-visible one is skipped (not a failure), and the first
/// failed check aborts the walk: the failure is returned unchanged and no
/// later item is checked.
///
/// Success is owed exactly when no check fails, and then the emission is
/// exactly the visible subsequence, in input order.
pub fn write_items<P: Provider>(p: &P, items: &Vec<Item>) -> (r: Result<Vec<Item>, CheckError>)
    ensures
        r is Ok <==> all_checks_ok(p, items@),
        r matches Ok(emitted) ==> emitted@ == visible_to(p, items@),
{
    let mut emitted: Vec<Item> = Vec::new();
    let mut j: usize = 0;
    while j < items.len()
        invariant
            j <= items.len(),
            all_checks_ok(p, items@.subrange(0, j as int)),
            emitted@ == visible_to(p, items@.subrange(0, j as int)),
        decreases items.len() - j,
    {
        let item = items[j];
        match p.can_see(&item) {
            Err(e) => {
                proof {
                    assert(!(p.spec_can_see(items@[j as int]) is Ok));
                }
                return Err(e);
            },
            Ok(visible) => {
                proof {
                    let sub = items@.subrange(0, j as int);
                    assert(items@.subrange(0, j as int + 1) =~= sub.push(items@[j as int]));
                }
                if visible {
                    emitted.push(item);
                }
            },
        }
        j = j + 1;
    }
    proof {
        assert(items@.subrange(0, items@.len() as int) =~= items@);
    }
    Ok(emitted)
}

/// When the checker finds every item visible, nothing fails and the
/// visible subsequence is the whole input, in input order: together with
/// the contract of [`write_items`], such a walk succeeds and emits every
/// item.
pub proof fn lemma_all_visible_emits_all<P: Provider>(p: &P, items: Seq<Item>)
    requires
        forall|i: int|
            0 <= i < items.len() ==> #[trigger] p.spec_can_see(items[i]) == Ok::<
                bool,
                CheckError,
            >(true),
    ensures
        all_checks_ok(p, items),
        visible_to(p, items) == items,
    decreases items.len(),
{
    if items.len() == 0 {
        reveal(Seq::filter);
        assert(visible_to(p, items) =~= items);
    } else {
        let head = items.drop_last();
        lemma_all_visible_emits_all(p, head);
        assert(head.push(items.last()) =~= items);
        assert(visible_to(p, items) =~= items);
    }
}

/// When the checker finds no item visible (but never fails), nothing
/// fails and the visible subsequence is empty: together with the contract
/// of [`write_items`], such a walk succeeds and emits nothing, since
/// "not visible" is not a failure.
pub proof fn lemma_none_visible_emits_nothing<P: Provider>(p: &P, items: Seq<Item>)
    requires
        forall|i: int|
            0 <= i < items.len() ==> #[trigger] p.spec_can_see(items[i]) == Ok::<
                bool,
                CheckError,
            >(false),
    ensures
        all_checks_ok(p, items),
        visible_to(p, items) == Seq::<Item>::empty(),
    decreases items.len(),
{
    if items.len() == 0 {
        reveal(Seq::filter);
        assert(visible_to(p, items) =~= Seq::<Item>::empty());
    } else {
        let head = items.drop_last();
        lemma_none_visible_emits_nothing(p, head);
        assert(head.push(items.last()) =~= items);
        assert(visible_to(p, items) =~= Seq::<Item>::empty());
    }
}

/// When the check of the item at some position fails, the walk as a whole
/// fails: together with the contract of [`write_items`], the result is the
/// opaque failure and no emission. The abort happens at the first failed
/// check, so no item past it is ever handed to the checker.
pub proof fn lemma_failed_check_aborts<P: Provider>(p: &P, items: Seq<Item>, k: int)
    requires
        0 <= k < items.len(),
        p.spec_can_see(items[k]) is Err,
    ensures
        !all_checks_ok(p, items),
{
    assert(!(p.spec_can_see(items[k]) is Ok));
}

} // verus!
