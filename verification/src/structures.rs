//! The product record, the sole entity the catalog holds.

use vstd::prelude::*;

use crate::model::ProductModel;

verus! {

/// A product record.
///
/// The price is carried in minor currency units and the rating in hundredths
/// of a star, so that both are exact integers.
pub struct Product {
    /// The product id, unique across the primary store.
    pub pid: String,
    /// The seller id; many products may share it.
    pub sid: String,
    /// The product name.
    pub name: String,
    /// The product description.
    pub description: String,
    /// The product image as a URL.
    pub image: String,
    /// The product category, matched exactly by search filters.
    pub category: String,
    /// The price, in minor currency units.
    pub price: u64,
    /// The stock level.
    pub stock: u32,
    /// The cumulative number of sales.
    pub sales: u32,
    /// The rating, in hundredths of a star.
    pub rating: u32,
    /// The click count.
    pub clicks: u32,
}

impl View for Product {
    type V = ProductModel;

    open spec fn view(&self) -> ProductModel {
        ProductModel {
            pid: self.pid@,
            sid: self.sid@,
            name: self.name@,
            description: self.description@,
            image: self.image@,
            category: self.category@,
            price: self.price,
            stock: self.stock,
            sales: self.sales,
            rating: self.rating,
            clicks: self.clicks,
        }
    }
}

impl Clone for Product {
    fn clone(&self) -> (r: Self)
        ensures
            r@ == self@,
    {
        Product {
            pid: self.pid.clone(),
            sid: self.sid.clone(),
            name: self.name.clone(),
            description: self.description.clone(),
            image: self.image.clone(),
            category: self.category.clone(),
            price: self.price,
            stock: self.stock,
            sales: self.sales,
            rating: self.rating,
            clicks: self.clicks,
        }
    }
}

} // verus!
