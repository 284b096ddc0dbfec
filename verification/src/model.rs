//! The mathematical model of the catalog.
//!
//! A product record is modelled as a [`ProductModel`]: every text field as a
//! sequence of characters, every numeric field as the integer it stands for
//! (the price in minor currency units, the rating in hundredths of a star).
//! A store is a sequence of such records, ordered as the store returns them,
//! with no two records sharing a product id. The whole catalog is a
//! [`CatalogModel`]: the primary sequence and the index sequence side by
//! side. Every operation of the library is specified here as a function on
//! these models.

use vstd::prelude::*;

verus! {

/// A product record, as the specifications see it.
pub struct ProductModel {
    /// The product id, unique across a store.
    pub pid: Seq<char>,
    /// The seller id; many products may share it.
    pub sid: Seq<char>,
    /// The product name.
    pub name: Seq<char>,
    /// The product description.
    pub description: Seq<char>,
    /// The product image as a URL.
    pub image: Seq<char>,
    /// The product category, matched exactly by search filters.
    pub category: Seq<char>,
    /// The price, in minor currency units.
    pub price: u64,
    /// The stock level.
    pub stock: u32,
    /// The cumulative number of sales.
    pub sales: u32,
    /// The rating, in hundredths of a star.
    pub rating: u32,
    /// The click count; it only ever grows.
    pub clicks: u32,
}

/// A partial update, as the specifications see it. A field that is `None`
/// is left unchanged; a field that is `Some` always overwrites, an empty or
/// zero value included.
pub struct UpdateModel {
    pub image: Option<Seq<char>>,
    pub price: Option<u64>,
    pub stock: Option<u32>,
    pub sales: Option<u32>,
    pub rating: Option<u32>,
}

/// The detail view of a record: every field but the click count.
pub struct DataModel {
    pub pid: Seq<char>,
    pub sid: Seq<char>,
    pub name: Seq<char>,
    pub description: Seq<char>,
    pub image: Seq<char>,
    pub category: Seq<char>,
    pub price: u64,
    pub stock: u32,
    pub sales: u32,
    pub rating: u32,
}

/// The detail view of `p`.
pub open spec fn data_of(p: ProductModel) -> DataModel {
    DataModel {
        pid: p.pid,
        sid: p.sid,
        name: p.name,
        description: p.description,
        image: p.image,
        category: p.category,
        price: p.price,
        stock: p.stock,
        sales: p.sales,
        rating: p.rating,
    }
}

/// The summary view of a record, as the paginated listing shows it.
pub struct ProductViewModel {
    pub pid: Seq<char>,
    pub sid: Seq<char>,
    pub name: Seq<char>,
    pub image: Seq<char>,
    pub price: u64,
    pub rating: u32,
}

/// The summary view of `p`.
pub open spec fn view_of(p: ProductModel) -> ProductViewModel {
    ProductViewModel {
        pid: p.pid,
        sid: p.sid,
        name: p.name,
        image: p.image,
        price: p.price,
        rating: p.rating,
    }
}

/// The analytics view of a record: the counters and the rating.
pub struct AnalyticsModel {
    pub pid: Seq<char>,
    pub sid: Seq<char>,
    pub stock: u32,
    pub sales: u32,
    pub rating: u32,
    pub clicks: u32,
}

/// The analytics view of `p`.
pub open spec fn analytics_of(p: ProductModel) -> AnalyticsModel {
    AnalyticsModel {
        pid: p.pid,
        sid: p.sid,
        stock: p.stock,
        sales: p.sales,
        rating: p.rating,
        clicks: p.clicks,
    }
}

/// Whether `p` matches the free-text query `q`: an empty query matches
/// everything, any other query must occur in the record's name or
/// description.
pub open spec fn matches_text(p: ProductModel, q: Seq<char>) -> bool {
    q.len() == 0 || crate::text::contains_seq(p.name, q) || crate::text::contains_seq(
        p.description,
        q,
    )
}

/// Whether `p` matches a search: the free-text query must match, and where
/// a category filter is set (non-empty), the record's category must equal
/// it exactly.
pub open spec fn matches_search(p: ProductModel, search: Seq<char>, category: Seq<char>) -> bool {
    matches_text(p, search) && (category.len() > 0 ==> p.category == category)
}

/// The window of `s` that a paginated read returns: `limit` records after
/// skipping the first `skip`, cut short at the end of the sequence.
pub open spec fn window(s: Seq<ProductModel>, skip: int, limit: int) -> Seq<ProductModel>
    recommends
        skip >= 0,
        limit >= 0,
{
    s.subrange(
        vstd::math::min(skip, s.len() as int),
        vstd::math::min(skip + limit, s.len() as int),
    )
}

/// The two stores side by side: the authoritative primary sequence and the
/// derived index sequence.
pub struct CatalogModel {
    pub primary: Seq<ProductModel>,
    pub index: Seq<ProductModel>,
}

/// No two records of `s` share a product id.
pub open spec fn unique_pids(s: Seq<ProductModel>) -> bool {
    forall|i: int, j: int| 0 <= i < j < s.len() ==> s[i].pid != s[j].pid
}

/// Both sequences of the catalog keep product ids unique.
pub open spec fn catalog_wf(c: CatalogModel) -> bool {
    unique_pids(c.primary) && unique_pids(c.index)
}

/// Some record of `s` carries the product id `pid`.
pub open spec fn contains_pid(s: Seq<ProductModel>, pid: Seq<char>) -> bool {
    exists|i: int| 0 <= i < s.len() && s[i].pid == pid
}

/// The position of the record carrying `pid`, where there is one.
pub open spec fn index_of_pid(s: Seq<ProductModel>, pid: Seq<char>) -> int {
    choose|i: int| 0 <= i < s.len() && s[i].pid == pid
}

/// The record of `s` carrying `pid`, or `None` where no record does.
pub open spec fn lookup(s: Seq<ProductModel>, pid: Seq<char>) -> Option<ProductModel> {
    if contains_pid(s, pid) {
        Some(s[index_of_pid(s, pid)])
    } else {
        None
    }
}

/// `s` without the record carrying `pid`; `s` itself where no record does.
pub open spec fn remove_pid(s: Seq<ProductModel>, pid: Seq<char>) -> Seq<ProductModel> {
    if contains_pid(s, pid) {
        s.remove(index_of_pid(s, pid))
    } else {
        s
    }
}

/// `s` with `p` put in place of the record sharing its id, or appended
/// where no record shares it: insert-or-replace by key.
pub open spec fn upsert(s: Seq<ProductModel>, p: ProductModel) -> Seq<ProductModel> {
    if contains_pid(s, p.pid) {
        s.update(index_of_pid(s, p.pid), p)
    } else {
        s.push(p)
    }
}

/// `u` merged onto `p`: a present field overwrites, an absent one leaves
/// the record's value standing.
pub open spec fn merge(p: ProductModel, u: UpdateModel) -> ProductModel {
    ProductModel {
        image: if u.image is Some { u.image->Some_0 } else { p.image },
        price: if u.price is Some { u.price->Some_0 } else { p.price },
        stock: if u.stock is Some { u.stock->Some_0 } else { p.stock },
        sales: if u.sales is Some { u.sales->Some_0 } else { p.sales },
        rating: if u.rating is Some { u.rating->Some_0 } else { p.rating },
        ..p
    }
}

/// `p` with its click count one higher, saturating at the largest count the
/// field can hold.
pub open spec fn bump_clicks(p: ProductModel) -> ProductModel {
    ProductModel {
        clicks: if p.clicks < u32::MAX { (p.clicks + 1) as u32 } else { u32::MAX },
        ..p
    }
}

/// `s` with the record carrying `pid` replaced by `f` of it; `s` itself
/// where no record carries `pid`.
pub open spec fn map_pid(
    s: Seq<ProductModel>,
    pid: Seq<char>,
    f: spec_fn(ProductModel) -> ProductModel,
) -> Seq<ProductModel> {
    if contains_pid(s, pid) {
        s.update(index_of_pid(s, pid), f(s[index_of_pid(s, pid)]))
    } else {
        s
    }
}

/// A listing request, as the specifications see it: the caller supplies
/// every descriptive field; the counters start at zero.
pub struct ListingModel {
    pub pid: Seq<char>,
    pub sid: Seq<char>,
    pub name: Seq<char>,
    pub description: Seq<char>,
    pub image: Seq<char>,
    pub category: Seq<char>,
    pub price: u64,
    pub stock: u32,
}

/// The record a listing request creates: the given fields, with sales,
/// rating and clicks at zero.
pub open spec fn listing_of(q: ListingModel) -> ProductModel {
    ProductModel {
        pid: q.pid,
        sid: q.sid,
        name: q.name,
        description: q.description,
        image: q.image,
        category: q.category,
        price: q.price,
        stock: q.stock,
        sales: 0,
        rating: 0,
        clicks: 0,
    }
}

/// The page of summary views that a paginated read returns: the records of
/// the `page`-th window of `size`, counted from page one.
pub open spec fn page_of(s: Seq<ProductModel>, page: u32, size: u32) -> Seq<ProductViewModel>
    recommends
        page >= 1,
{
    window(s, (page - 1) * size, size as int).map_values(viewer())
}

/// The summary-view projection, as a function value, so that mappings over
/// it can be named in contracts.
pub open spec fn viewer() -> spec_fn(ProductModel) -> ProductViewModel {
    |p: ProductModel| view_of(p)
}

/// The records of `s` sold by `sid`.
pub open spec fn sold_by(sid: Seq<char>) -> spec_fn(ProductModel) -> bool {
    |p: ProductModel| p.sid == sid
}

/// The search predicate over a whole record, as a function value, so that
/// filters over it can be named in contracts.
pub open spec fn matcher(search: Seq<char>, category: Seq<char>) -> spec_fn(ProductModel) -> bool {
    |p: ProductModel| matches_search(p, search, category)
}

/// The merge of `u`, as a function value over records.
pub open spec fn merger(u: UpdateModel) -> spec_fn(ProductModel) -> ProductModel {
    |p: ProductModel| merge(p, u)
}

/// The click bump, as a function value over records.
pub open spec fn bumper() -> spec_fn(ProductModel) -> ProductModel {
    |p: ProductModel| bump_clicks(p)
}

/// Where ids are unique, the record at `i` is the one `lookup` finds.
pub proof fn lemma_index_unique(s: Seq<ProductModel>, pid: Seq<char>, i: int)
    requires
        unique_pids(s),
        0 <= i < s.len(),
        s[i].pid == pid,
    ensures
        contains_pid(s, pid),
        index_of_pid(s, pid) == i,
        lookup(s, pid) == Some(s[i]),
{
    assert(contains_pid(s, pid));
    let j = index_of_pid(s, pid);
    assert(0 <= j < s.len() && s[j].pid == pid);
    if i < j {
        assert(s[i].pid != s[j].pid);
    }
    if j < i {
        assert(s[j].pid != s[i].pid);
    }
}

/// Appending a record with a fresh id keeps ids unique.
pub proof fn lemma_unique_push(s: Seq<ProductModel>, p: ProductModel)
    requires
        unique_pids(s),
        !contains_pid(s, p.pid),
    ensures
        unique_pids(s.push(p)),
{
    assert forall|i: int, j: int| 0 <= i < j < s.push(p).len() implies s.push(p)[i].pid != s.push(
        p,
    )[j].pid by {
        if j < s.len() {
            assert(s[i].pid != s[j].pid);
        } else {
            if s[i].pid == p.pid {
                assert(contains_pid(s, p.pid));
            }
        }
    }
}

/// Removing a record keeps ids unique.
pub proof fn lemma_unique_remove(s: Seq<ProductModel>, i: int)
    requires
        unique_pids(s),
        0 <= i < s.len(),
    ensures
        unique_pids(s.remove(i)),
{
    let t = s.remove(i);
    assert forall|a: int, b: int| 0 <= a < b < t.len() implies t[a].pid != t[b].pid by {
        let a0 = if a < i {
            a
        } else {
            a + 1
        };
        let b0 = if b < i {
            b
        } else {
            b + 1
        };
        assert(t[a] == s[a0]);
        assert(t[b] == s[b0]);
        assert(s[a0].pid != s[b0].pid);
    }
}

/// Replacing a record by one carrying the same id keeps ids unique.
pub proof fn lemma_unique_update(s: Seq<ProductModel>, i: int, p: ProductModel)
    requires
        unique_pids(s),
        0 <= i < s.len(),
        p.pid == s[i].pid,
    ensures
        unique_pids(s.update(i, p)),
{
    let t = s.update(i, p);
    assert forall|a: int, b: int| 0 <= a < b < t.len() implies t[a].pid != t[b].pid by {
        assert(s[a].pid != s[b].pid);
    }
}

/// Upserting keeps ids unique, and afterwards the upserted record is the
/// one its id finds.
pub proof fn lemma_upsert(s: Seq<ProductModel>, p: ProductModel)
    requires
        unique_pids(s),
    ensures
        unique_pids(upsert(s, p)),
        lookup(upsert(s, p), p.pid) == Some(p),
{
    if contains_pid(s, p.pid) {
        let i = index_of_pid(s, p.pid);
        assert(0 <= i < s.len() && s[i].pid == p.pid);
        lemma_unique_update(s, i, p);
        lemma_index_unique(s.update(i, p), p.pid, i);
    } else {
        lemma_unique_push(s, p);
        lemma_index_unique(s.push(p), p.pid, s.len() as int);
    }
}

/// Removing by id keeps ids unique and leaves no record carrying the id.
pub proof fn lemma_remove_pid(s: Seq<ProductModel>, pid: Seq<char>)
    requires
        unique_pids(s),
    ensures
        unique_pids(remove_pid(s, pid)),
        !contains_pid(remove_pid(s, pid), pid),
{
    if contains_pid(s, pid) {
        let i = index_of_pid(s, pid);
        assert(0 <= i < s.len() && s[i].pid == pid);
        lemma_unique_remove(s, i);
        let t = s.remove(i);
        assert forall|j: int| 0 <= j < t.len() implies t[j].pid != pid by {
            let j0 = if j < i {
                j
            } else {
                j + 1
            };
            assert(t[j] == s[j0]);
            if j0 < i {
                assert(s[j0].pid != s[i].pid);
            } else {
                assert(s[i].pid != s[j0].pid);
            }
        }
    }
}

/// Listing a new record: where its id is free, the record goes to the end
/// of the primary sequence and is then mirrored into the index, and the
/// operation reports `true`; where the id is taken, nothing changes and the
/// operation reports `false` (a conflict).
pub open spec fn list_transition(c: CatalogModel, p: ProductModel) -> (CatalogModel, bool) {
    if contains_pid(c.primary, p.pid) {
        (c, false)
    } else {
        (CatalogModel { primary: c.primary.push(p), index: upsert(c.index, p) }, true)
    }
}

/// Delisting by id: where a record carries the id, it leaves the primary
/// sequence and then the index, and the operation reports `true`; where
/// none does, nothing changes and the operation reports `false`.
pub open spec fn delist_transition(c: CatalogModel, pid: Seq<char>) -> (CatalogModel, bool) {
    if contains_pid(c.primary, pid) {
        (CatalogModel { primary: remove_pid(c.primary, pid), index: remove_pid(c.index, pid) }, true)
    } else {
        (c, false)
    }
}

/// Partial update by id: where a record carries the id, the patch is merged
/// onto it in the primary sequence and the whole merged record is then
/// mirrored into the index — not only the changed fields, so the index
/// never keeps a stale value for an untouched field. Where no record
/// carries the id, nothing changes and the operation reports `false`.
pub open spec fn update_transition(
    c: CatalogModel,
    pid: Seq<char>,
    u: UpdateModel,
) -> (CatalogModel, bool) {
    if contains_pid(c.primary, pid) {
        let merged = merge(lookup(c.primary, pid)->Some_0, u);
        (CatalogModel {
            primary: map_pid(c.primary, pid, merger(u)),
            index: upsert(c.index, merged),
        }, true)
    } else {
        (c, false)
    }
}

/// Click increment by id: where a record carries the id, its click count
/// grows by one in the primary sequence and the whole grown record is then
/// mirrored into the index. Where no record carries the id, nothing changes
/// and the operation reports `false`.
pub open spec fn increment_transition(c: CatalogModel, pid: Seq<char>) -> (CatalogModel, bool) {
    if contains_pid(c.primary, pid) {
        let bumped = bump_clicks(lookup(c.primary, pid)->Some_0);
        (CatalogModel {
            primary: map_pid(c.primary, pid, bumper()),
            index: upsert(c.index, bumped),
        }, true)
    } else {
        (c, false)
    }
}

/// Rebuilding the index from scratch: the index becomes a copy of the
/// primary sequence.
pub open spec fn reindex_transition(c: CatalogModel) -> CatalogModel {
    CatalogModel { primary: c.primary, index: c.primary }
}

} // verus!
