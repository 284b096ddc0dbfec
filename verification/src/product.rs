//! Product reads and updates: detail lookup, search, pagination, and the
//! partial update with its merge rule.

use vstd::prelude::*;

use crate::catalog::Catalog;
use crate::model;
use crate::model::{DataModel, ProductViewModel, UpdateModel};
use crate::store::records_view;
use crate::structures::Product;

verus! {

/// How many records one page of the paginated view holds. The page size is
/// a fixed constant of the service, not chosen by the caller.
pub const PAGE_SIZE: u32 = 18;

/// The detail view of a product: every field but the click count.
pub struct Data {
    /// The product id.
    pub pid: String,
    /// The seller id.
    pub sid: String,
    /// The product name.
    pub name: String,
    /// The product description.
    pub description: String,
    /// The product image as a URL.
    pub image: String,
    /// The product category.
    pub category: String,
    /// The price, in minor currency units.
    pub price: u64,
    /// The stock level.
    pub stock: u32,
    /// The cumulative number of sales.
    pub sales: u32,
    /// The rating, in hundredths of a star.
    pub rating: u32,
}

impl View for Data {
    type V = DataModel;

    open spec fn view(&self) -> DataModel {
        DataModel {
            pid: self.pid@,
            sid: self.sid@,
            name: self.name@,
            description: self.description@,
            image: self.image@,
            category: self.category@,
            price: self.price,
            stock: self.stock,
            sales: self.sales,
            rating: self.rating,
        }
    }
}

impl Data {
    /// The detail view of `p`.
    pub fn of_product(p: &Product) -> (d: Data)
        ensures
            d@ == model::data_of(p@),
    {
        Data {
            pid: p.pid.clone(),
            sid: p.sid.clone(),
            name: p.name.clone(),
            description: p.description.clone(),
            image: p.image.clone(),
            category: p.category.clone(),
            price: p.price,
            stock: p.stock,
            sales: p.sales,
            rating: p.rating,
        }
    }
}

/// The summary view of a product, as the paginated listing shows it.
pub struct ProductView {
    /// The product id.
    pub pid: String,
    /// The seller id.
    pub sid: String,
    /// The product name.
    pub name: String,
    /// The product image as a URL.
    pub image: String,
    /// The price, in minor currency units.
    pub price: u64,
    /// The rating, in hundredths of a star.
    pub rating: u32,
}

impl View for ProductView {
    type V = ProductViewModel;

    open spec fn view(&self) -> ProductViewModel {
        ProductViewModel {
            pid: self.pid@,
            sid: self.sid@,
            name: self.name@,
            image: self.image@,
            price: self.price,
            rating: self.rating,
        }
    }
}

impl ProductView {
    /// The summary view of `p`.
    pub fn of_product(p: &Product) -> (v: ProductView)
        ensures
            v@ == model::view_of(p@),
    {
        ProductView {
            pid: p.pid.clone(),
            sid: p.sid.clone(),
            name: p.name.clone(),
            image: p.image.clone(),
            price: p.price,
            rating: p.rating,
        }
    }
}

/// The parameters of a product search: a free-text query and a category
/// filter, either of which may be empty.
pub struct SearchQuery {
    /// The category filter; empty when no filter is set.
    pub category: String,
    /// The free-text query; empty matches everything.
    pub search: String,
}

/// The parameters of a paginated read: the page number, counted from one.
pub struct PageQuery {
    /// The page number, counted from one.
    pub page: u32,
}

/// A partial update of a product. A field that is `None` is left unchanged;
/// a field that is `Some` always overwrites, an empty or zero value
/// included.
pub struct UpdateQuery {
    /// The product image as a URL.
    pub image: Option<String>,
    /// The price, in minor currency units.
    pub price: Option<u64>,
    /// The stock level.
    pub stock: Option<u32>,
    /// The cumulative number of sales.
    pub sales: Option<u32>,
    /// The rating, in hundredths of a star.
    pub rating: Option<u32>,
}

impl View for UpdateQuery {
    type V = UpdateModel;

    open spec fn view(&self) -> UpdateModel {
        UpdateModel {
            image: match self.image {
                Some(ref s) => Some(s@),
                None => None,
            },
            price: self.price,
            stock: self.stock,
            sales: self.sales,
            rating: self.rating,
        }
    }
}

/// `u` merged onto `p`: a present field overwrites, an absent one leaves
/// the record's value standing.
pub fn apply_update(p: &Product, u: &UpdateQuery) -> (r: Product)
    ensures
        r@ == model::merge(p@, u@),
{
    let mut r = p.clone();
    match u.image {
        Some(ref image) => {
            r.image = image.clone();
        },
        None => {},
    }
    match u.price {
        Some(price) => {
            r.price = price;
        },
        None => {},
    }
    match u.stock {
        Some(stock) => {
            r.stock = stock;
        },
        None => {},
    }
    match u.sales {
        Some(sales) => {
            r.sales = sales;
        },
        None => {},
    }
    match u.rating {
        Some(rating) => {
            r.rating = rating;
        },
        None => {},
    }
    r
}

/// The view of a vector of summary views: the sequence of their models.
pub open spec fn views_view(vs: Seq<ProductView>) -> Seq<ProductViewModel> {
    vs.map_values(|v: ProductView| v@)
}

/// Retrieve detailed data for a specific product: the detail view of the
/// primary store's record carrying `pid`, or nothing where no record does.
pub fn retrieve_data(catalog: &Catalog, pid: &String) -> (r: Option<Data>)
    ensures
        (r is Some) == model::contains_pid(catalog@.primary, pid@),
        r matches Some(d) ==> d@ == model::data_of(
            model::lookup(catalog@.primary, pid@)->Some_0,
        ),
{
    match catalog.primary.find_one(pid) {
        Some(p) => Some(Data::of_product(&p)),
        None => None,
    }
}

/// Retrieve the products matching a search query, straight from the search
/// index: those the free-text part matches and, where the category filter
/// is set, whose category equals it exactly.
pub fn retrieve_products(catalog: &Catalog, query: &SearchQuery) -> (r: Vec<Product>)
    ensures
        records_view(r@) == catalog@.index.filter(
            model::matcher(query.search@, query.category@),
        ),
{
    catalog.index.search(query)
}

/// How many records a paginated read of page `page` skips: the records of
/// all the pages before it, the page number counted from one.
pub fn page_skip(page: u32) -> (skip: u64)
    requires
        page >= 1,
    ensures
        skip == (page - 1) * PAGE_SIZE,
{
    let pages_before: u64 = (page - 1) as u64;
    proof {
        assert(pages_before * (PAGE_SIZE as u64) <= 0xffff_ffffu64 * 18) by (nonlinear_arith)
            requires
                pages_before <= 0xffff_ffffu64,
        ;
    }
    pages_before * (PAGE_SIZE as u64)
}

/// Retrieve one page of summary views from the primary store, in the
/// store's order: the window of [`PAGE_SIZE`] records after skipping the
/// pages before `query.page`, which is counted from one.
pub fn retrieve_paginated_products(catalog: &Catalog, query: &PageQuery) -> (r: Vec<ProductView>)
    requires
        query.page >= 1,
    ensures
        views_view(r@) == model::page_of(catalog@.primary, query.page, PAGE_SIZE),
{
    let skip: u64 = page_skip(query.page);
    let products = catalog.primary.window(skip, PAGE_SIZE as u64);
    let mut out: Vec<ProductView> = Vec::new();
    let n = products.len();
    let mut i: usize = 0;
    while i < n
        invariant
            n == products@.len(),
            i <= n,
            records_view(products@) == model::window(
                catalog@.primary,
                skip as int,
                PAGE_SIZE as int,
            ),
            views_view(out@) == records_view(products@).take(i as int).map_values(
                model::viewer(),
            ),
        decreases n - i,
    {
        let ghost out0 = out@;
        out.push(ProductView::of_product(&products[i]));
        proof {
            assert(views_view(out0).len() == i);
            assert(out0.len() == i);
            assert forall|j: int| 0 <= j <= i implies views_view(out@)[j] == records_view(
                products@,
            ).take(i + 1).map_values(model::viewer())[j] by {
                if j < i {
                    assert(out@[j] == out0[j]);
                    assert(views_view(out0)[j] == records_view(products@).take(
                        i as int,
                    ).map_values(model::viewer())[j]);
                }
            }
            assert(views_view(out@) =~= records_view(products@).take(i + 1).map_values(
                model::viewer(),
            ));
        }
        i += 1;
    }
    proof {
        assert(records_view(products@).take(n as int) =~= records_view(products@));
        assert(views_view(out@) =~= model::page_of(catalog@.primary, query.page, PAGE_SIZE));
    }
    out
}

/// Update a product: merge the patch onto the primary store's record
/// carrying `pid`, then mirror the whole merged record into the search
/// index; report whether a record carried `pid`. Where none does, nothing
/// changes anywhere.
pub fn update_product(catalog: &mut Catalog, pid: &String, query: &UpdateQuery) -> (r: bool)
    ensures
        (final(catalog)@, r) == model::update_transition(old(catalog)@, pid@, query@),
{
    match catalog.primary.find_one(pid) {
        Some(current) => {
            let merged = apply_update(&current, query);
            catalog.primary.update_one(pid, query);
            catalog.index.add_or_replace(merged);
            true
        },
        None => false,
    }
}

} // verus!
