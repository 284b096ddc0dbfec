//! Analytics: the per-product counters, and the click increment.

use vstd::prelude::*;

use crate::catalog::Catalog;
use crate::model;
use crate::model::AnalyticsModel;
use crate::structures::Product;

verus! {

/// The analytics view of a product: the counters and the rating.
pub struct Data {
    /// The product id.
    pub pid: String,
    /// The seller id.
    pub sid: String,
    /// The stock level.
    pub stock: u32,
    /// The cumulative number of sales.
    pub sales: u32,
    /// The rating, in hundredths of a star.
    pub rating: u32,
    /// The click count.
    pub clicks: u32,
}

impl View for Data {
    type V = AnalyticsModel;

    open spec fn view(&self) -> AnalyticsModel {
        AnalyticsModel {
            pid: self.pid@,
            sid: self.sid@,
            stock: self.stock,
            sales: self.sales,
            rating: self.rating,
            clicks: self.clicks,
        }
    }
}

impl Data {
    /// The analytics view of `p`.
    pub fn of_product(p: &Product) -> (d: Data)
        ensures
            d@ == model::analytics_of(p@),
    {
        Data {
            pid: p.pid.clone(),
            sid: p.sid.clone(),
            stock: p.stock,
            sales: p.sales,
            rating: p.rating,
            clicks: p.clicks,
        }
    }
}

/// Retrieve analytics data for a specific product: the analytics view of
/// the primary store's record carrying `pid`, or nothing where no record
/// does.
pub fn retrieve_data(catalog: &Catalog, pid: &String) -> (r: Option<Data>)
    ensures
        (r is Some) == model::contains_pid(catalog@.primary, pid@),
        r matches Some(d) ==> d@ == model::analytics_of(
            model::lookup(catalog@.primary, pid@)->Some_0,
        ),
{
    match catalog.primary.find_one(pid) {
        Some(p) => Some(Data::of_product(&p)),
        None => None,
    }
}

/// Add one click to the record carrying `pid` in the primary store, then
/// re-read the grown record and mirror the whole of it into the search
/// index — the index takes full records, not deltas. Where no record
/// carries `pid`, nothing changes anywhere and the call reports `false`.
pub fn increment_clicks(catalog: &mut Catalog, pid: &String) -> (r: bool)
    ensures
        (final(catalog)@, r) == model::increment_transition(old(catalog)@, pid@),
{
    let ghost c0 = catalog@;
    if catalog.primary.increment_clicks(pid) {
        proof {
            let i = model::index_of_pid(c0.primary, pid@);
            assert(0 <= i < c0.primary.len() && c0.primary[i].pid == pid@);
            assert(model::bumper()(c0.primary[i]) == model::bump_clicks(c0.primary[i]));
            assert(catalog@.primary[i].pid == pid@);
            assert(model::contains_pid(catalog@.primary, pid@));
        }
        match catalog.primary.find_one(pid) {
            Some(updated) => {
                proof {
                    let i = model::index_of_pid(c0.primary, pid@);
                    assert(catalog@.primary[i] == model::bump_clicks(c0.primary[i]));
                    model::lemma_index_unique(catalog@.primary, pid@, i);
                    assert(updated@ == model::bump_clicks(
                        model::lookup(c0.primary, pid@)->Some_0,
                    ));
                }
                catalog.index.add_or_replace(updated);
                true
            },
            None => {
                proof {
                    assert(false);
                }
                false
            },
        }
    } else {
        false
    }
}

} // verus!
