//! Seller-facing operations: the seller's product list, listing a new
//! product, and delisting one.

use vstd::prelude::*;

use crate::catalog::Catalog;
use crate::model;
use crate::model::ListingModel;
use crate::store::records_view;
use crate::structures::Product;

verus! {

/// The parameters of a listing request: the caller supplies every
/// descriptive field; the counters start at zero.
pub struct ProductQuery {
    /// The product id the caller chose.
    pub pid: String,
    /// The seller id.
    pub sid: String,
    /// The product name.
    pub name: String,
    /// The product description.
    pub description: String,
    /// The product image as a URL.
    pub image: String,
    /// The product category.
    pub category: String,
    /// The price, in minor currency units.
    pub price: u64,
    /// The stock level.
    pub stock: u32,
}

impl View for ProductQuery {
    type V = ListingModel;

    open spec fn view(&self) -> ListingModel {
        ListingModel {
            pid: self.pid@,
            sid: self.sid@,
            name: self.name@,
            description: self.description@,
            image: self.image@,
            category: self.category@,
            price: self.price,
            stock: self.stock,
        }
    }
}

impl ProductQuery {
    /// The record this request lists: the given fields, with sales, rating
    /// and clicks at zero.
    pub fn to_product(&self) -> (p: Product)
        ensures
            p@ == model::listing_of(self@),
    {
        Product {
            pid: self.pid.clone(),
            sid: self.sid.clone(),
            name: self.name.clone(),
            description: self.description.clone(),
            image: self.image.clone(),
            category: self.category.clone(),
            price: self.price,
            stock: self.stock,
            sales: 0,
            rating: 0,
            clicks: 0,
        }
    }
}

/// Retrieve every product sold by `sid`, in the primary store's order,
/// together with whether anything was found. An unknown seller and a
/// seller with no listings both come back empty: the system keeps no
/// seller table, so the two cannot be told apart.
pub fn retrieve_seller_products(catalog: &Catalog, sid: &String) -> (r: (Vec<Product>, bool))
    ensures
        records_view(r.0@) == catalog@.primary.filter(model::sold_by(sid@)),
        r.1 == (catalog@.primary.filter(model::sold_by(sid@)).len() != 0),
{
    let products = catalog.primary.find_by_sid(sid);
    proof {
        assert(records_view(products@).len() == products@.len());
    }
    let found = products.len() != 0;
    (products, found)
}

/// List a new product: where its id is free in the primary store, the
/// record (counters at zero) is inserted there and then mirrored into the
/// search index, and the call reports `true`; where the id is taken, both
/// stores stand as they were and the call reports `false` — a conflict the
/// caller must resolve with a different id.
pub fn list_product(catalog: &mut Catalog, query: &ProductQuery) -> (r: bool)
    ensures
        (final(catalog)@, r) == model::list_transition(
            old(catalog)@,
            model::listing_of(query@),
        ),
{
    match catalog.primary.find_one(&query.pid) {
        Some(_) => false,
        None => {
            let p = query.to_product();
            let doc = p.clone();
            catalog.primary.insert(p);
            catalog.index.add_or_replace(doc);
            true
        },
    }
}

/// Delist a product: where a record carries `pid`, it is removed from the
/// primary store and then from the search index, and the call reports
/// `true`; where none does, nothing changes and the call reports `false`.
pub fn delist_product(catalog: &mut Catalog, pid: &String) -> (r: bool)
    ensures
        (final(catalog)@, r) == model::delist_transition(old(catalog)@, pid@),
{
    match catalog.primary.find_one_and_delete(pid) {
        Some(_) => {
            catalog.index.delete_document(pid);
            true
        },
        None => false,
    }
}

} // verus!
