//! The catalog operations, exercised end to end on concrete records.

use catalog_sync::analytics;
use catalog_sync::catalog::Catalog;
use catalog_sync::product::{self, PageQuery, SearchQuery, UpdateQuery};
use catalog_sync::profile::{self, ProductQuery};
use catalog_sync::structures::Product;

fn listing(pid: &str, sid: &str, name: &str, category: &str, price: u64, stock: u32) -> ProductQuery {
    ProductQuery {
        pid: pid.to_string(),
        sid: sid.to_string(),
        name: name.to_string(),
        description: format!("about {}", name),
        image: format!("https://img.example/{}.png", pid),
        category: category.to_string(),
        price,
        stock,
    }
}

fn empty_patch() -> UpdateQuery {
    UpdateQuery { image: None, price: None, stock: None, sales: None, rating: None }
}

#[test]
fn list_then_lookup_returns_identical_record() {
    let mut catalog = Catalog::new();
    let q = listing("P0001", "S0001", "kettle", "kitchen", 2599, 4);
    assert!(profile::list_product(&mut catalog, &q));

    let data = product::retrieve_data(&catalog, &"P0001".to_string()).expect("record listed");
    assert!(data.pid == "P0001");
    assert!(data.sid == "S0001");
    assert!(data.name == "kettle");
    assert!(data.description == "about kettle");
    assert!(data.image == "https://img.example/P0001.png");
    assert!(data.category == "kitchen");
    assert!(data.price == 2599);
    assert!(data.stock == 4);
    assert!(data.sales == 0);
    assert!(data.rating == 0);

    let hits = product::retrieve_products(
        &catalog,
        &SearchQuery { category: String::new(), search: String::new() },
    );
    assert_eq!(hits.len(), 1);
    assert!(hits[0].pid == "P0001");
    assert!(hits[0].name == "kettle");
    assert!(hits[0].clicks == 0);
}

#[test]
fn second_listing_of_same_id_conflicts_and_changes_nothing() {
    let mut catalog = Catalog::new();
    let first = listing("P0001", "S0001", "kettle", "kitchen", 2599, 4);
    let second = listing("P0001", "S0002", "toaster", "kitchen", 999, 7);
    assert!(profile::list_product(&mut catalog, &first));
    assert!(!profile::list_product(&mut catalog, &second));

    let data = product::retrieve_data(&catalog, &"P0001".to_string()).expect("first record kept");
    assert!(data.sid == "S0001");
    assert!(data.name == "kettle");
    assert!(data.price == 2599);

    let hits = product::retrieve_products(
        &catalog,
        &SearchQuery { category: String::new(), search: String::new() },
    );
    assert_eq!(hits.len(), 1);
    assert!(hits[0].name == "kettle");
}

#[test]
fn update_with_only_price_leaves_every_other_field_alone() {
    let mut catalog = Catalog::new();
    let q = listing("P0002", "S0001", "lamp", "furniture", 4500, 9);
    assert!(profile::list_product(&mut catalog, &q));
    assert!(analytics::increment_clicks(&mut catalog, &"P0002".to_string()));

    let mut patch = empty_patch();
    patch.price = Some(3999);
    assert!(product::update_product(&mut catalog, &"P0002".to_string(), &patch));

    let data = product::retrieve_data(&catalog, &"P0002".to_string()).expect("record kept");
    assert!(data.price == 3999);
    assert!(data.name == "lamp");
    assert!(data.description == "about lamp");
    assert!(data.image == "https://img.example/P0002.png");
    assert!(data.category == "furniture");
    assert!(data.stock == 9);
    assert!(data.sales == 0);
    assert!(data.rating == 0);
    let counters = analytics::retrieve_data(&catalog, &"P0002".to_string()).expect("record kept");
    assert!(counters.clicks == 1);
}

#[test]
fn update_overwrites_with_explicit_zero_and_empty_values() {
    let mut catalog = Catalog::new();
    let q = listing("P0003", "S0001", "vase", "decor", 1200, 3);
    assert!(profile::list_product(&mut catalog, &q));

    let patch = UpdateQuery {
        image: Some(String::new()),
        price: Some(0),
        stock: Some(0),
        sales: Some(0),
        rating: Some(0),
    };
    assert!(product::update_product(&mut catalog, &"P0003".to_string(), &patch));

    let data = product::retrieve_data(&catalog, &"P0003".to_string()).expect("record kept");
    assert!(data.image == "");
    assert!(data.price == 0);
    assert!(data.stock == 0);
    assert!(data.name == "vase");
}

#[test]
fn update_of_absent_id_reports_not_found_and_changes_nothing() {
    let mut catalog = Catalog::new();
    let q = listing("P0004", "S0001", "mug", "kitchen", 700, 20);
    assert!(profile::list_product(&mut catalog, &q));

    let mut patch = empty_patch();
    patch.price = Some(1);
    assert!(!product::update_product(&mut catalog, &"P9999".to_string(), &patch));
    let data = product::retrieve_data(&catalog, &"P0004".to_string()).expect("record kept");
    assert!(data.price == 700);
}

#[test]
fn increment_n_times_adds_exactly_n_clicks() {
    let mut catalog = Catalog::new();
    let q = listing("P0005", "S0001", "chair", "furniture", 8900, 2);
    assert!(profile::list_product(&mut catalog, &q));

    for _ in 0..5 {
        assert!(analytics::increment_clicks(&mut catalog, &"P0005".to_string()));
    }
    let counters = analytics::retrieve_data(&catalog, &"P0005".to_string()).expect("record kept");
    assert!(counters.clicks == 5);

    assert!(!analytics::increment_clicks(&mut catalog, &"P9999".to_string()));
    let counters = analytics::retrieve_data(&catalog, &"P0005".to_string()).expect("record kept");
    assert!(counters.clicks == 5);
}

#[test]
fn delist_removes_from_store_and_from_search_results() {
    let mut catalog = Catalog::new();
    assert!(!profile::delist_product(&mut catalog, &"P0006".to_string()));

    let q = listing("P0006", "S0001", "desk", "furniture", 15000, 1);
    assert!(profile::list_product(&mut catalog, &q));
    assert!(profile::delist_product(&mut catalog, &"P0006".to_string()));

    assert!(product::retrieve_data(&catalog, &"P0006".to_string()).is_none());
    let hits = product::retrieve_products(
        &catalog,
        &SearchQuery { category: String::new(), search: String::new() },
    );
    assert!(hits.is_empty());
}

#[test]
fn pages_one_and_two_split_a_double_page_store_exactly() {
    let mut catalog = Catalog::new();
    let total = 2 * 18;
    for i in 0..total {
        let q = listing(
            &format!("P{:04}", i + 1),
            "S0001",
            &format!("item {}", i + 1),
            "misc",
            100 + i as u64,
            1,
        );
        assert!(profile::list_product(&mut catalog, &q));
    }

    let first = product::retrieve_paginated_products(&catalog, &PageQuery { page: 1 });
    let second = product::retrieve_paginated_products(&catalog, &PageQuery { page: 2 });
    assert_eq!(first.len(), 18);
    assert_eq!(second.len(), 18);

    let first_ids: Vec<String> = first.iter().map(|v| v.pid.clone()).collect();
    let second_ids: Vec<String> = second.iter().map(|v| v.pid.clone()).collect();
    for pid in &first_ids {
        assert!(!second_ids.contains(pid));
    }
    let mut all_ids = first_ids.clone();
    all_ids.extend(second_ids.clone());
    for i in 0..total {
        assert!(all_ids.contains(&format!("P{:04}", i + 1)));
    }

    // records come in insertion order, so page two starts right after page one
    assert!(first[0].pid == "P0001");
    assert!(second[0].pid == "P0019");

    let third = product::retrieve_paginated_products(&catalog, &PageQuery { page: 3 });
    assert!(third.is_empty());
}

#[test]
fn seller_products_come_back_with_a_found_flag() {
    let mut catalog = Catalog::new();
    assert!(profile::list_product(&mut catalog, &listing("P0010", "S0001", "pot", "kitchen", 900, 5)));
    assert!(profile::list_product(&mut catalog, &listing("P0011", "S0002", "pan", "kitchen", 1100, 5)));
    assert!(profile::list_product(&mut catalog, &listing("P0012", "S0001", "lid", "kitchen", 300, 5)));

    let (mine, found) = profile::retrieve_seller_products(&catalog, &"S0001".to_string());
    assert!(found);
    assert_eq!(mine.len(), 2);
    assert!(mine[0].pid == "P0010");
    assert!(mine[1].pid == "P0012");

    let (none, found) = profile::retrieve_seller_products(&catalog, &"S0009".to_string());
    assert!(!found);
    assert!(none.is_empty());
}

#[test]
fn listing_mirrors_full_record_into_the_index() {
    let mut catalog = Catalog::new();
    let q = listing("P0013", "S0003", "globe", "decor", 2300, 6);
    assert!(profile::list_product(&mut catalog, &q));
    let mut patch = empty_patch();
    patch.stock = Some(5);
    patch.sales = Some(1);
    assert!(product::update_product(&mut catalog, &"P0013".to_string(), &patch));

    // the whole merged record is resent, so untouched fields stay fresh too
    let hits = product::retrieve_products(
        &catalog,
        &SearchQuery { category: "decor".to_string(), search: String::new() },
    );
    assert_eq!(hits.len(), 1);
    let hit: &Product = &hits[0];
    assert!(hit.stock == 5);
    assert!(hit.sales == 1);
    assert!(hit.name == "globe");
    assert!(hit.price == 2300);
}
