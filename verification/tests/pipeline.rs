use std::sync::Arc;

use visibility::handler::{filter_deleted, handle_request, HttpStatus};
use visibility::item::Item;
use visibility::provider::{AllowAll, Decision, DenyAll, FailAll, Provider, TableProvider};
use visibility::writer::write_items;

fn fresh_items(n: usize) -> Vec<Item> {
    (0..n).map(Item::new).collect()
}

#[test]
fn item_flags() {
    let a = Item::new(7);
    assert_eq!(a.id, 7);
    assert!(!a.is_deleted());
    let b = Item::new_deleted(7);
    assert_eq!(b.id, 7);
    assert!(b.is_deleted());
}

#[test]
fn all_visible_emits_all_in_order() {
    let items = fresh_items(4);
    let emitted = write_items(&AllowAll, &items).expect("no check may fail");
    assert_eq!(emitted, items);
}

#[test]
fn none_visible_emits_nothing_and_succeeds() {
    let items = fresh_items(4);
    let emitted = write_items(&DenyAll, &items).expect("not visible is not a failure");
    assert_eq!(emitted, Vec::new());
}

#[test]
fn empty_input_succeeds_vacuously() {
    let items = Vec::new();
    let emitted = write_items(&FailAll, &items).expect("no item, no check, no failure");
    assert_eq!(emitted, Vec::new());
}

#[test]
fn mixed_decisions_emit_visible_subsequence() {
    let table = TableProvider::new(vec![
        Decision::Visible,
        Decision::Hidden,
        Decision::Visible,
        Decision::Hidden,
    ]);
    let items = fresh_items(4);
    let emitted = write_items(&table, &items).expect("no entry fails");
    assert_eq!(emitted, vec![Item::new(0), Item::new(2)]);
}

#[test]
fn first_failure_aborts_the_walk() {
    let table = TableProvider::new(vec![
        Decision::Visible,
        Decision::Hidden,
        Decision::Fail,
        Decision::Visible,
    ]);
    let items = fresh_items(4);
    assert!(write_items(&table, &items).is_err());
}

#[test]
fn failure_on_sole_item() {
    let items = fresh_items(1);
    assert!(write_items(&FailAll, &items).is_err());
}

#[test]
fn out_of_table_item_cannot_be_decided() {
    let table = TableProvider::new(vec![Decision::Visible]);
    let items = vec![Item::new(3)];
    assert!(write_items(&table, &items).is_err());
}

#[test]
fn filter_deleted_keeps_non_deleted_in_order() {
    let items = vec![
        Item::new(0),
        Item::new_deleted(1),
        Item::new(2),
        Item::new_deleted(3),
        Item::new(4),
    ];
    let kept = filter_deleted(&items);
    assert_eq!(kept, vec![Item::new(0), Item::new(2), Item::new(4)]);
}

#[test]
fn deleted_items_never_reach_the_checker() {
    // The checker has a rule only for item 0 and fails on anything else,
    // so the deleted item 5 would fail its check if it were ever asked
    // about; the request succeeds, so it never was.
    let table = TableProvider::new(vec![Decision::Visible]);
    let items = vec![Item::new(0), Item::new_deleted(5)];
    assert_eq!(handle_request(&table, &items), HttpStatus::Success);
}

#[test]
fn one_visible_item_answers_200() {
    let items = vec![Item::new(0)];
    let status = handle_request(&AllowAll, &items);
    assert_eq!(status, HttpStatus::Success);
    assert_eq!(status.code(), 200);
}

#[test]
fn failing_checker_answers_500() {
    let items = vec![Item::new(0)];
    let status = handle_request(&FailAll, &items);
    assert_eq!(status, HttpStatus::ServerError);
    assert_eq!(status.code(), 500);
}

#[test]
fn zero_items_answer_200() {
    let items = Vec::new();
    assert_eq!(handle_request(&FailAll, &items).code(), 200);
}

#[test]
fn deleted_only_collection_answers_200() {
    let items = vec![Item::new_deleted(0), Item::new_deleted(1)];
    assert_eq!(handle_request(&FailAll, &items).code(), 200);
}

#[test]
fn shared_checker_handle_serves_requests_independently() {
    // One reference-counted checker handle shared by several requests,
    // each owning its own collection: every interleaved outcome matches
    // the outcome of the same request served alone.
    let shared: Arc<TableProvider> = Arc::new(TableProvider::new(vec![
        Decision::Visible,
        Decision::Hidden,
        Decision::Fail,
    ]));
    let request_a = vec![Item::new(0), Item::new(1)];
    let request_b = vec![Item::new(2)];
    let request_c = vec![Item::new(1), Item::new_deleted(2)];

    let alone = TableProvider::new(vec![
        Decision::Visible,
        Decision::Hidden,
        Decision::Fail,
    ]);
    let expected_a = handle_request(&alone, &request_a);
    let expected_b = handle_request(&alone, &request_b);
    let expected_c = handle_request(&alone, &request_c);

    let handle_one = shared.clone();
    let handle_two = shared.clone();
    assert_eq!(handle_request(&*handle_one, &request_a), expected_a);
    assert_eq!(handle_request(&*handle_two, &request_b), expected_b);
    assert_eq!(handle_request(&*handle_one, &request_c), expected_c);
    assert_eq!(handle_request(&*shared, &request_a), expected_a);

    assert_eq!(expected_a, HttpStatus::Success);
    assert_eq!(expected_b, HttpStatus::ServerError);
    assert_eq!(expected_c, HttpStatus::Success);
}

#[test]
fn provider_decisions_are_per_item() {
    let table = TableProvider::new(vec![Decision::Hidden, Decision::Visible]);
    assert_eq!(table.can_see(&Item::new(0)), Ok(false));
    assert_eq!(table.can_see(&Item::new(1)), Ok(true));
    assert!(table.can_see(&Item::new(2)).is_err());
}
