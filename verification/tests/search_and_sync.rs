//! Search matching, bulk reindexing, the poll rule and the status mapping.

use catalog_sync::catalog::Catalog;
use catalog_sync::database::{self, PollAction, TaskState};
use catalog_sync::http::{status_code, ResponseKind};
use catalog_sync::product::{self, SearchQuery};
use catalog_sync::profile::{self, ProductQuery};
use catalog_sync::text::str_contains;

fn listing(pid: &str, name: &str, description: &str, category: &str) -> ProductQuery {
    ProductQuery {
        pid: pid.to_string(),
        sid: "S0001".to_string(),
        name: name.to_string(),
        description: description.to_string(),
        image: String::new(),
        category: category.to_string(),
        price: 1000,
        stock: 1,
    }
}

fn seeded() -> Catalog {
    let mut catalog = Catalog::new();
    let rows = [
        ("P0001", "walnut desk", "a sturdy desk of walnut", "furniture"),
        ("P0002", "oak chair", "a chair of oak", "furniture"),
        ("P0003", "desk lamp", "a small lamp for a desk", "lighting"),
        ("P0004", "floor lamp", "a tall lamp", "lighting"),
    ];
    for (pid, name, description, category) in rows {
        assert!(profile::list_product(&mut catalog, &listing(pid, name, description, category)));
    }
    catalog
}

#[test]
fn empty_query_with_category_filter_returns_exactly_that_category() {
    let catalog = seeded();
    let hits = product::retrieve_products(
        &catalog,
        &SearchQuery { category: "lighting".to_string(), search: String::new() },
    );
    assert_eq!(hits.len(), 2);
    for hit in &hits {
        assert!(hit.category == "lighting");
    }
    assert!(hits[0].pid == "P0003");
    assert!(hits[1].pid == "P0004");
}

#[test]
fn free_text_matches_name_or_description() {
    let catalog = seeded();
    let hits = product::retrieve_products(
        &catalog,
        &SearchQuery { category: String::new(), search: "desk".to_string() },
    );
    // "desk" occurs in the name of P0001 and P0003 and in the description of P0001
    assert_eq!(hits.len(), 2);
    assert!(hits[0].pid == "P0001");
    assert!(hits[1].pid == "P0003");

    let none = product::retrieve_products(
        &catalog,
        &SearchQuery { category: String::new(), search: "piano".to_string() },
    );
    assert!(none.is_empty());
}

#[test]
fn free_text_and_category_filter_combine() {
    let catalog = seeded();
    let hits = product::retrieve_products(
        &catalog,
        &SearchQuery { category: "furniture".to_string(), search: "desk".to_string() },
    );
    assert_eq!(hits.len(), 1);
    assert!(hits[0].pid == "P0001");
}

#[test]
fn substring_matching_is_plain_containment() {
    assert!(str_contains("walnut desk", "desk"));
    assert!(str_contains("walnut desk", ""));
    assert!(str_contains("", ""));
    assert!(!str_contains("", "a"));
    assert!(!str_contains("desk", "walnut desk"));
    assert!(str_contains("aaab", "aab"));
    assert!(!str_contains("acac", "aa"));
    assert!(str_contains("crème brûlée", "brûlée"));
    assert!(!str_contains("creme brulee", "brûlée"));
}

#[test]
fn reindex_rebuilds_the_index_from_the_primary_store() {
    let mut catalog = seeded();
    // delist through the primary path, then rebuild the index wholesale
    assert!(profile::delist_product(&mut catalog, &"P0002".to_string()));
    database::index_products(&mut catalog);

    let everything = product::retrieve_products(
        &catalog,
        &SearchQuery { category: String::new(), search: String::new() },
    );
    let fetched = database::fetch_products(&catalog);
    assert_eq!(everything.len(), fetched.len());
    for (hit, kept) in everything.iter().zip(fetched.iter()) {
        assert!(hit.pid == kept.pid);
    }
}

#[test]
fn poll_rule_waits_finishes_and_aborts() {
    assert!(matches!(database::poll_action(&TaskState::Processing), PollAction::Wait));
    assert!(matches!(database::poll_action(&TaskState::Succeeded), PollAction::Finish));
    assert!(matches!(database::poll_action(&TaskState::Failed), PollAction::Abort));
}

#[test]
fn status_codes_follow_the_route_table() {
    assert_eq!(status_code(&ResponseKind::Success), 200);
    assert_eq!(status_code(&ResponseKind::NoContent), 204);
    assert_eq!(status_code(&ResponseKind::Conflict), 409);
    assert_eq!(status_code(&ResponseKind::Fault), 500);
}
