//! The general laws of the catalog, stated over the model transitions and
//! proved once and for all: what listing, delisting, updating, clicking,
//! paging and searching guarantee on every catalog whose stores keep ids
//! unique — which the stores do by construction.

use vstd::prelude::*;

use crate::model::{
    bump_clicks, bumper, catalog_wf, contains_pid, delist_transition, increment_transition,
    index_of_pid, lemma_index_unique, lemma_remove_pid, lemma_unique_push, lemma_unique_update,
    lemma_upsert, list_transition, lookup, map_pid, matcher, matches_search, merge, page_of,
    unique_pids, viewer, window, CatalogModel, ProductModel, UpdateModel,
};

verus! {

/// Listing a record under an id the primary store does not hold succeeds,
/// and afterwards a lookup by that id finds the very record — field for
/// field — in the primary store and in the search index alike.
pub proof fn lemma_list_then_lookup(c: CatalogModel, p: ProductModel)
    requires
        catalog_wf(c),
        !contains_pid(c.primary, p.pid),
    ensures
        list_transition(c, p).1,
        lookup(list_transition(c, p).0.primary, p.pid) == Some(p),
        lookup(list_transition(c, p).0.index, p.pid) == Some(p),
        catalog_wf(list_transition(c, p).0),
{
    lemma_unique_push(c.primary, p);
    lemma_index_unique(c.primary.push(p), p.pid, c.primary.len() as int);
    lemma_upsert(c.index, p);
}

/// Listing the same id twice: the second call reports a conflict and
/// leaves the catalog exactly as the first call left it, the first record
/// unmodified under its id.
pub proof fn lemma_list_conflict(c: CatalogModel, p: ProductModel, q: ProductModel)
    requires
        catalog_wf(c),
        !contains_pid(c.primary, p.pid),
        q.pid == p.pid,
    ensures
        ({
            let first = list_transition(c, p);
            let second = list_transition(first.0, q);
            first.1 && !second.1 && second.0 == first.0 && lookup(first.0.primary, p.pid)
                == Some(p)
        }),
{
    lemma_list_then_lookup(c, p);
    let c1 = list_transition(c, p).0;
    assert(c1.primary[c.primary.len() as int].pid == p.pid);
    assert(contains_pid(c1.primary, q.pid));
}

/// A partial update that sets only the price changes the price and nothing
/// else: id, seller, name, description, image, category, stock, sales,
/// rating and clicks all stand as they were.
pub proof fn lemma_update_price_only(p: ProductModel, u: UpdateModel)
    requires
        u.price is Some,
        u.image is None,
        u.stock is None,
        u.sales is None,
        u.rating is None,
    ensures
        merge(p, u).price == u.price->Some_0,
        merge(p, u).pid == p.pid,
        merge(p, u).sid == p.sid,
        merge(p, u).name == p.name,
        merge(p, u).description == p.description,
        merge(p, u).image == p.image,
        merge(p, u).category == p.category,
        merge(p, u).stock == p.stock,
        merge(p, u).sales == p.sales,
        merge(p, u).rating == p.rating,
        merge(p, u).clicks == p.clicks,
{
}

/// The catalog after `n` click increments on one id, one after the other.
pub open spec fn increment_n(c: CatalogModel, pid: Seq<char>, n: nat) -> CatalogModel
    decreases n,
{
    if n == 0 {
        c
    } else {
        increment_transition(increment_n(c, pid, (n - 1) as nat), pid).0
    }
}

/// `n` sequential click increments on an id the primary store holds leave
/// its click count exactly `n` above where it started, as long as the
/// count stays within its field.
pub proof fn lemma_increment_n_clicks(c: CatalogModel, pid: Seq<char>, n: nat)
    requires
        catalog_wf(c),
        contains_pid(c.primary, pid),
        lookup(c.primary, pid)->Some_0.clicks + n <= u32::MAX,
    ensures
        catalog_wf(increment_n(c, pid, n)),
        contains_pid(increment_n(c, pid, n).primary, pid),
        lookup(increment_n(c, pid, n).primary, pid)->Some_0.clicks == lookup(
            c.primary,
            pid,
        )->Some_0.clicks + n,
    decreases n,
{
    if n > 0 {
        lemma_increment_n_clicks(c, pid, (n - 1) as nat);
        let c1 = increment_n(c, pid, (n - 1) as nat);
        let i = index_of_pid(c1.primary, pid);
        assert(0 <= i < c1.primary.len() && c1.primary[i].pid == pid);
        let bumped = bump_clicks(c1.primary[i]);
        assert(bumper()(c1.primary[i]) == bumped);
        lemma_unique_update(c1.primary, i, bumped);
        let c2 = increment_transition(c1, pid).0;
        assert(c2.primary == map_pid(c1.primary, pid, bumper()));
        assert(c2.primary[i] == bumped);
        lemma_index_unique(c2.primary, pid, i);
        lemma_upsert(c1.index, bumped);
        assert(increment_n(c, pid, n) == c2);
    }
}

/// A click increment on an id the primary store does not hold reports the
/// record as missing and changes nothing in either store.
pub proof fn lemma_increment_absent(c: CatalogModel, pid: Seq<char>)
    requires
        !contains_pid(c.primary, pid),
    ensures
        increment_transition(c, pid) == (c, false),
{
}

/// Delisting an id the primary store does not hold reports the record as
/// missing and changes nothing. Delisting one it holds succeeds, and
/// afterwards a lookup by that id finds nothing in the primary store and
/// the id is gone from the search index too.
pub proof fn lemma_delist(c: CatalogModel, pid: Seq<char>)
    requires
        catalog_wf(c),
    ensures
        !contains_pid(c.primary, pid) ==> delist_transition(c, pid) == (c, false),
        contains_pid(c.primary, pid) ==> ({
            let after = delist_transition(c, pid);
            after.1 && lookup(after.0.primary, pid) is None && !contains_pid(after.0.index, pid)
                && catalog_wf(after.0)
        }),
{
    if contains_pid(c.primary, pid) {
        lemma_remove_pid(c.primary, pid);
        lemma_remove_pid(c.index, pid);
    }
}

/// Every record a search returns comes from the index it searched: an id
/// absent from the index — as a delisted id is — appears in no search
/// result, whatever the query and the filter.
pub proof fn lemma_search_excludes_absent(
    s: Seq<ProductModel>,
    pid: Seq<char>,
    txt: Seq<char>,
    cat: Seq<char>,
)
    requires
        !contains_pid(s, pid),
    ensures
        forall|i: int|
            0 <= i < s.filter(matcher(txt, cat)).len() ==> s.filter(matcher(txt, cat))[i].pid
                != pid,
    decreases s.len(),
{
    reveal(Seq::filter);
    if s.len() > 0 {
        let butlast = s.drop_last();
        assert(!contains_pid(butlast, pid)) by {
            if contains_pid(butlast, pid) {
                let j = choose|j: int| 0 <= j < butlast.len() && butlast[j].pid == pid;
                assert(s[j].pid == pid);
            }
        }
        lemma_search_excludes_absent(butlast, pid, txt, cat);
        assert(s.last().pid != pid) by {
            if s.last().pid == pid {
                assert(s[s.len() - 1].pid == pid);
            }
        }
        let picked = s.filter(matcher(txt, cat));
        let picked_butlast = butlast.filter(matcher(txt, cat));
        assert forall|i: int| 0 <= i < picked.len() implies picked[i].pid != pid by {
            if i < picked_butlast.len() {
                assert(picked[i] == picked_butlast[i]);
            } else {
                assert(picked[i] == s.last());
            }
        }
    }
}

/// The first and the second page of a store holding exactly `2 * k`
/// records are disjoint, and together they are exactly the store's
/// records, each taken as its summary view.
pub proof fn lemma_pages_partition(s: Seq<ProductModel>, k: u32)
    requires
        unique_pids(s),
        1 <= k,
        s.len() == 2 * k,
    ensures
        page_of(s, 1, k).to_set().disjoint(page_of(s, 2, k).to_set()),
        page_of(s, 1, k).to_set().union(page_of(s, 2, k).to_set()) == s.map_values(
            viewer(),
        ).to_set(),
{
    let first = page_of(s, 1, k);
    let second = page_of(s, 2, k);
    let whole = s.map_values(viewer());
    assert(window(s, 0, k as int) =~= s.subrange(0, k as int));
    assert(window(s, k as int, k as int) =~= s.subrange(k as int, 2 * k));
    assert(first.len() == k && second.len() == k);
    assert forall|i: int| 0 <= i < k implies first[i] == viewer()(s[i]) && second[i] == viewer()(
        s[i + k],
    ) by {}
    assert forall|v: crate::model::ProductViewModel|
        first.to_set().contains(v) implies !second.to_set().contains(v) by {
        if second.to_set().contains(v) {
            let i = choose|i: int| 0 <= i < first.len() && first[i] == v;
            let j = choose|j: int| 0 <= j < second.len() && second[j] == v;
            assert(first[i] == v && second[j] == v);
            assert(s[i].pid == v.pid && s[j + k].pid == v.pid);
            assert(s[i].pid != s[j + k].pid);
        }
    }
    assert(first.to_set().union(second.to_set()) =~= whole.to_set()) by {
        assert forall|v: crate::model::ProductViewModel|
            first.to_set().union(second.to_set()).contains(v) implies whole.to_set().contains(
            v,
        ) by {
            if first.to_set().contains(v) {
                let i = choose|i: int| 0 <= i < first.len() && first[i] == v;
                assert(whole[i] == v);
            } else {
                let j = choose|j: int| 0 <= j < second.len() && second[j] == v;
                assert(whole[j + k] == v);
            }
        }
        assert forall|v: crate::model::ProductViewModel| whole.to_set().contains(v) implies first
            .to_set().union(second.to_set()).contains(v) by {
            let i = choose|i: int| 0 <= i < whole.len() && whole[i] == v;
            if i < k {
                assert(first[i] == v);
            } else {
                assert(second[i - k] == v);
            }
        }
    }
}

/// A search with an empty free-text query and a category filter set
/// returns exactly the records whose category equals the filter: nothing
/// else gets in, and none of them is left out.
pub proof fn lemma_search_category(s: Seq<ProductModel>, cat: Seq<char>)
    requires
        cat.len() > 0,
    ensures
        forall|i: int|
            0 <= i < s.filter(matcher(Seq::<char>::empty(), cat)).len() ==> s.filter(
                matcher(Seq::<char>::empty(), cat),
            )[i].category == cat,
        forall|i: int|
            0 <= i < s.len() && s[i].category == cat ==> s.filter(
                matcher(Seq::<char>::empty(), cat),
            ).contains(s[i]),
{
    let pred = matcher(Seq::<char>::empty(), cat);
    let picked = s.filter(pred);
    assert forall|i: int| 0 <= i < picked.len() implies picked[i].category == cat by {
        s.lemma_filter_pred(pred, i);
        assert(matches_search(picked[i], Seq::<char>::empty(), cat));
    }
    assert forall|i: int| 0 <= i < s.len() && s[i].category == cat implies picked.contains(
        s[i],
    ) by {
        assert(matches_search(s[i], Seq::<char>::empty(), cat));
        s.lemma_filter_contains(pred, i);
    }
}

} // verus!
