//! The primary store: the authoritative keeper of product records.
//!
//! Records are held in the order they were inserted, and that order is the
//! one paginated reads walk. No two records ever share a product id; the
//! store keeps that invariant on its own, so callers never have to restate
//! it.

use vstd::prelude::*;

use crate::model;
use crate::model::ProductModel;
use crate::product::UpdateQuery;
use crate::structures::Product;

verus! {

/// The view of a vector of records: the sequence of their models.
pub open spec fn records_view(records: Seq<Product>) -> Seq<ProductModel> {
    records.map_values(|p: Product| p@)
}

/// The position of the first record of `records` whose id is `pid`.
pub(crate) fn position_of(records: &Vec<Product>, pid: &String) -> (r: Option<usize>)
    ensures
        match r {
            Some(i) => i < records@.len() && records@[i as int]@.pid == pid@ && (forall|k: int|
                0 <= k < i ==> records@[k]@.pid != pid@),
            None => forall|k: int| 0 <= k < records@.len() ==> records@[k]@.pid != pid@,
        },
{
    let n = records.len();
    let mut i: usize = 0;
    while i < n
        invariant
            n == records@.len(),
            i <= n,
            forall|k: int| 0 <= k < i ==> records@[k]@.pid != pid@,
        decreases n - i,
    {
        if records[i].pid == *pid {
            return Some(i);
        }
        i += 1;
    }
    None
}

/// The authoritative store of product records, keyed by product id.
pub struct PrimaryStore {
    records: Vec<Product>,
}

impl View for PrimaryStore {
    type V = Seq<ProductModel>;

    closed spec fn view(&self) -> Seq<ProductModel> {
        records_view(self.records@)
    }
}

impl PrimaryStore {
    #[verifier::type_invariant]
    spec fn inv(&self) -> bool {
        model::unique_pids(self@)
    }

    /// An empty store.
    pub fn new() -> (s: PrimaryStore)
        ensures
            s@ == Seq::<ProductModel>::empty(),
    {
        let s = PrimaryStore { records: Vec::new() };
        proof {
            assert(s@ =~= Seq::<ProductModel>::empty());
        }
        s
    }

    /// Point lookup by product id. The store's guarantee that no two
    /// records share an id comes along, so callers can reason about which
    /// record was found.
    pub fn find_one(&self, pid: &String) -> (r: Option<Product>)
        ensures
            (r is Some) == model::contains_pid(self@, pid@),
            r matches Some(p) ==> model::lookup(self@, pid@) == Some(p@),
            model::unique_pids(self@),
    {
        proof {
            use_type_invariant(self);
        }
        match position_of(&self.records, pid) {
            Some(i) => {
                proof {
                    model::lemma_index_unique(self@, pid@, i as int);
                }
                Some(self.records[i].clone())
            },
            None => None,
        }
    }

    /// Insert a record whose id is not yet taken; it goes to the end of the
    /// store's order.
    pub fn insert(&mut self, p: Product)
        requires
            !model::contains_pid(old(self)@, p@.pid),
        ensures
            final(self)@ == old(self)@.push(p@),
    {
        proof {
            use_type_invariant(&*self);
        }
        let ghost s0 = self@;
        let mut records: Vec<Product> = Vec::new();
        std::mem::swap(&mut records, &mut self.records);
        proof {
            let ghost p_model = p@;
            model::lemma_unique_push(s0, p_model);
        }
        records.push(p);
        proof {
            assert(records_view(records@) =~= s0.push(p@));
        }
        self.records = records;
    }

    /// Atomically find a record by id and take it out of the store.
    pub fn find_one_and_delete(&mut self, pid: &String) -> (r: Option<Product>)
        ensures
            final(self)@ == model::remove_pid(old(self)@, pid@),
            (r is Some) == model::contains_pid(old(self)@, pid@),
            r matches Some(p) ==> model::lookup(old(self)@, pid@) == Some(p@),
    {
        proof {
            use_type_invariant(&*self);
        }
        let ghost s0 = self@;
        match position_of(&self.records, pid) {
            Some(i) => {
                proof {
                    model::lemma_index_unique(s0, pid@, i as int);
                    model::lemma_unique_remove(s0, i as int);
                }
                let mut records: Vec<Product> = Vec::new();
                std::mem::swap(&mut records, &mut self.records);
                let removed = records.remove(i);
                proof {
                    assert(records_view(records@) =~= s0.remove(i as int));
                }
                self.records = records;
                Some(removed)
            },
            None => None,
        }
    }

    /// Merge a partial update onto the record carrying `pid`, where there is
    /// one; report whether there was.
    pub fn update_one(&mut self, pid: &String, u: &UpdateQuery) -> (r: bool)
        ensures
            final(self)@ == model::map_pid(old(self)@, pid@, model::merger(u@)),
            r == model::contains_pid(old(self)@, pid@),
    {
        proof {
            use_type_invariant(&*self);
        }
        let ghost s0 = self@;
        match position_of(&self.records, pid) {
            Some(i) => {
                let merged = crate::product::apply_update(&self.records[i], u);
                proof {
                    model::lemma_index_unique(s0, pid@, i as int);
                    model::lemma_unique_update(s0, i as int, merged@);
                }
                let mut records: Vec<Product> = Vec::new();
                std::mem::swap(&mut records, &mut self.records);
                records[i] = merged;
                proof {
                    assert(records_view(records@) =~= model::map_pid(
                        s0,
                        pid@,
                        model::merger(u@),
                    ));
                }
                self.records = records;
                true
            },
            None => false,
        }
    }

    /// Add one click to the record carrying `pid`, where there is one;
    /// report whether there was. The count saturates at the largest value
    /// its field can hold.
    pub fn increment_clicks(&mut self, pid: &String) -> (r: bool)
        ensures
            final(self)@ == model::map_pid(old(self)@, pid@, model::bumper()),
            r == model::contains_pid(old(self)@, pid@),
    {
        proof {
            use_type_invariant(&*self);
        }
        let ghost s0 = self@;
        match position_of(&self.records, pid) {
            Some(i) => {
                let mut bumped = self.records[i].clone();
                bumped.clicks = if bumped.clicks < u32::MAX {
                    bumped.clicks + 1
                } else {
                    u32::MAX
                };
                proof {
                    model::lemma_index_unique(s0, pid@, i as int);
                    model::lemma_unique_update(s0, i as int, bumped@);
                }
                let mut records: Vec<Product> = Vec::new();
                std::mem::swap(&mut records, &mut self.records);
                records[i] = bumped;
                proof {
                    assert(records_view(records@) =~= model::map_pid(
                        s0,
                        pid@,
                        model::bumper(),
                    ));
                }
                self.records = records;
                true
            },
            None => false,
        }
    }

    /// All records sold by `sid`, in the store's order.
    pub fn find_by_sid(&self, sid: &String) -> (r: Vec<Product>)
        ensures
            records_view(r@) == self@.filter(model::sold_by(sid@)),
    {
        let mut out: Vec<Product> = Vec::new();
        let n = self.records.len();
        let mut i: usize = 0;
        while i < n
            invariant
                n == self.records@.len(),
                i <= n,
                records_view(out@) == self@.take(i as int).filter(model::sold_by(sid@)),
            decreases n - i,
        {
            if self.records[i].sid == *sid {
                out.push(self.records[i].clone());
            }
            proof {
                reveal(Seq::filter);
                assert(self@.take(i + 1).drop_last() =~= self@.take(i as int));
                assert(self@.take(i + 1).last() == self@[i as int]);
                assert(records_view(out@) =~= self@.take(i + 1).filter(model::sold_by(sid@)));
            }
            i += 1;
        }
        proof {
            assert(self@.take(n as int) =~= self@);
        }
        out
    }

    /// The window of `limit` records after the first `skip`, in the store's
    /// order, cut short at the end.
    pub fn window(&self, skip: u64, limit: u64) -> (r: Vec<Product>)
        ensures
            records_view(r@) == model::window(self@, skip as int, limit as int),
    {
        let n = self.records.len();
        let start: usize = if skip < n as u64 {
            skip as usize
        } else {
            n
        };
        let remaining = n - start;
        let take: usize = if limit < remaining as u64 {
            limit as usize
        } else {
            remaining
        };
        let stop = start + take;
        let mut out: Vec<Product> = Vec::new();
        let mut i: usize = start;
        while i < stop
            invariant
                stop == start + take,
                stop <= self.records@.len(),
                start <= i <= stop,
                records_view(out@) == self@.subrange(start as int, i as int),
            decreases stop - i,
        {
            let ghost out0 = out@;
            out.push(self.records[i].clone());
            proof {
                assert(records_view(out0) == self@.subrange(start as int, i as int));
                assert(records_view(out0).len() == i - start);
                assert(out0.len() == i - start);
                assert(out@ == out0.push(out@[(i - start) as int]));
                assert forall|j: int|
                    0 <= j < records_view(out@).len() implies records_view(out@)[j]
                    == self@.subrange(start as int, i + 1)[j] by {
                    if j < i - start {
                        assert(records_view(out0)[j] == self@.subrange(start as int, i as int)[j]);
                        assert(out@[j] == out0[j]);
                    }
                }
                assert(records_view(out@) =~= self@.subrange(start as int, i + 1));
            }
            i += 1;
        }
        proof {
            assert(records_view(out@) =~= model::window(self@, skip as int, limit as int));
        }
        out
    }

    /// Every record of the store, in its order. The copy keeps the store's
    /// guarantee that no two records share an id, so it can seed a bulk
    /// reindex as it stands.
    pub fn all(&self) -> (r: Vec<Product>)
        ensures
            records_view(r@) == self@,
            model::unique_pids(self@),
    {
        proof {
            use_type_invariant(self);
        }
        let mut out: Vec<Product> = Vec::new();
        let n = self.records.len();
        let mut i: usize = 0;
        while i < n
            invariant
                n == self.records@.len(),
                i <= n,
                records_view(out@) == self@.take(i as int),
            decreases n - i,
        {
            let ghost out0 = out@;
            out.push(self.records[i].clone());
            proof {
                assert(records_view(out0) == self@.take(i as int));
                assert(records_view(out0).len() == i);
                assert(out0.len() == i);
                assert(out@ == out0.push(out@[i as int]));
                assert(out@[i as int]@ == self@[i as int]);
                assert(records_view(out@).len() == i + 1);
                assert forall|j: int| 0 <= j <= i implies records_view(out@)[j] == self@[j] by {
                    assert(records_view(out@)[j] == out@[j]@);
                    if j < i {
                        assert(out@[j] == out0[j]);
                        assert(records_view(out0)[j] == out0[j]@);
                        assert(records_view(out0)[j] == self@.take(i as int)[j]);
                    }
                }
                assert(records_view(out@) =~= self@.take(i + 1));
            }
            i += 1;
        }
        proof {
            assert(self@.take(n as int) =~= self@);
        }
        out
    }
}

} // verus!
