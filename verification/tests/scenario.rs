//! One concrete walk through the service: list a product, read its detail
//! view, click it twice, read its analytics.

use catalog_sync::analytics;
use catalog_sync::catalog::Catalog;
use catalog_sync::http::{status_code, ResponseKind};
use catalog_sync::product;
use catalog_sync::profile::{self, ProductQuery};

#[test]
fn listed_product_shows_its_data_and_counts_two_clicks() {
    let mut catalog = Catalog::new();
    let q = ProductQuery {
        pid: "P0001".to_string(),
        sid: "S0001".to_string(),
        name: "notebook".to_string(),
        description: "a plain notebook".to_string(),
        image: "https://img.example/P0001.png".to_string(),
        category: "stationery".to_string(),
        price: 999,  // 9.99 in minor units
        stock: 10,
    };
    assert!(profile::list_product(&mut catalog, &q));

    let data = product::retrieve_data(&catalog, &"P0001".to_string()).expect("just listed");
    assert_eq!(status_code(&ResponseKind::Success), 200);
    assert!(data.pid == "P0001");
    assert!(data.sid == "S0001");
    assert!(data.price == 999);
    assert!(data.stock == 10);
    assert!(data.sales == 0);
    assert!(data.rating == 0);
    // the detail view carries no click count at all

    assert!(analytics::increment_clicks(&mut catalog, &"P0001".to_string()));
    assert!(analytics::increment_clicks(&mut catalog, &"P0001".to_string()));

    let counters = analytics::retrieve_data(&catalog, &"P0001".to_string()).expect("still listed");
    assert!(counters.clicks == 2);
    assert!(counters.sales == 0);
}
