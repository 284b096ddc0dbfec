//! The catalog: the primary store and the search index side by side.
//!
//! Every mutating operation of the library writes the primary store first
//! and then propagates the resulting record to the index, so the primary
//! store is always the source of truth and the index follows it.

use vstd::prelude::*;

use crate::index::SearchIndex;
use crate::model::CatalogModel;
use crate::store::PrimaryStore;

verus! {

/// The two stores the service keeps in step.
pub struct Catalog {
    /// The authoritative primary store.
    pub primary: PrimaryStore,
    /// The derived search index.
    pub index: SearchIndex,
}

impl View for Catalog {
    type V = CatalogModel;

    open spec fn view(&self) -> CatalogModel {
        CatalogModel { primary: self.primary@, index: self.index@ }
    }
}

impl Catalog {
    /// An empty catalog: both stores empty.
    pub fn new() -> (c: Catalog)
        ensures
            c@.primary == Seq::<crate::model::ProductModel>::empty(),
            c@.index == Seq::<crate::model::ProductModel>::empty(),
    {
        Catalog { primary: PrimaryStore::new(), index: SearchIndex::new() }
    }
}

} // verus!
