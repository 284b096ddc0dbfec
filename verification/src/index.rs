//! The search index: a derived, query-optimized replica of the product
//! records.
//!
//! The index holds whole records keyed by product id, never two with one id.
//! It has no write path of its own: the catalog operations upsert into it,
//! delete from it, or rebuild it wholesale from the primary store. A query
//! is a free-text part matched against name and description and an optional
//! exact-match category filter.

use vstd::prelude::*;
use vstd::string::StrSliceExecFns;

use crate::model;
use crate::model::ProductModel;
use crate::product::SearchQuery;
use crate::store::{position_of, records_view};
use crate::structures::Product;
use crate::text::{chars_vec, seq_contains};

verus! {

/// The search index over product records, keyed by product id.
pub struct SearchIndex {
    docs: Vec<Product>,
}

impl View for SearchIndex {
    type V = Seq<ProductModel>;

    closed spec fn view(&self) -> Seq<ProductModel> {
        records_view(self.docs@)
    }
}

impl SearchIndex {
    #[verifier::type_invariant]
    spec fn inv(&self) -> bool {
        model::unique_pids(self@)
    }

    /// An empty index.
    pub fn new() -> (s: SearchIndex)
        ensures
            s@ == Seq::<ProductModel>::empty(),
    {
        let s = SearchIndex { docs: Vec::new() };
        proof {
            assert(s@ =~= Seq::<ProductModel>::empty());
        }
        s
    }

    /// Insert-or-replace by product id: the record takes the place of the
    /// one sharing its id, or goes to the end where none does.
    pub fn add_or_replace(&mut self, p: Product)
        ensures
            final(self)@ == model::upsert(old(self)@, p@),
    {
        proof {
            use_type_invariant(&*self);
        }
        let ghost s0 = self@;
        match position_of(&self.docs, &p.pid) {
            Some(i) => {
                proof {
                    model::lemma_index_unique(s0, p@.pid, i as int);
                    model::lemma_unique_update(s0, i as int, p@);
                }
                let mut docs: Vec<Product> = Vec::new();
                std::mem::swap(&mut docs, &mut self.docs);
                docs[i] = p;
                proof {
                    assert(records_view(docs@) =~= model::upsert(s0, docs@[i as int]@));
                }
                self.docs = docs;
            },
            None => {
                proof {
                    model::lemma_unique_push(s0, p@);
                }
                let mut docs: Vec<Product> = Vec::new();
                std::mem::swap(&mut docs, &mut self.docs);
                let ghost p_model = p@;
                docs.push(p);
                proof {
                    assert(records_view(docs@) =~= model::upsert(s0, p_model));
                }
                self.docs = docs;
            },
        }
    }

    /// Delete the record carrying `pid`, where there is one.
    pub fn delete_document(&mut self, pid: &String)
        ensures
            final(self)@ == model::remove_pid(old(self)@, pid@),
    {
        proof {
            use_type_invariant(&*self);
        }
        let ghost s0 = self@;
        match position_of(&self.docs, pid) {
            Some(i) => {
                proof {
                    model::lemma_index_unique(s0, pid@, i as int);
                    model::lemma_unique_remove(s0, i as int);
                }
                let mut docs: Vec<Product> = Vec::new();
                std::mem::swap(&mut docs, &mut self.docs);
                docs.remove(i);
                proof {
                    assert(records_view(docs@) =~= model::remove_pid(s0, pid@));
                }
                self.docs = docs;
            },
            None => {},
        }
    }

    /// Replace the whole index by the given records, which must not share
    /// ids: the bulk (re)indexing path.
    pub fn replace_all(&mut self, records: Vec<Product>)
        requires
            model::unique_pids(records_view(records@)),
        ensures
            final(self)@ == records_view(records@),
    {
        self.docs = records;
    }

    /// All records matching the query, in the index's order: those the
    /// free-text part matches and, where a category filter is set, whose
    /// category equals it exactly.
    pub fn search(&self, query: &SearchQuery) -> (r: Vec<Product>)
        ensures
            records_view(r@) == self@.filter(model::matcher(query.search@, query.category@)),
    {
        let qchars = chars_vec(query.search.as_str());
        let mut out: Vec<Product> = Vec::new();
        let n = self.docs.len();
        let mut i: usize = 0;
        while i < n
            invariant
                n == self.docs@.len(),
                i <= n,
                qchars@ == query.search@,
                records_view(out@) == self@.take(i as int).filter(
                    model::matcher(query.search@, query.category@),
                ),
            decreases n - i,
        {
            if record_matches(&self.docs[i], query, &qchars) {
                out.push(self.docs[i].clone());
            }
            proof {
                reveal(Seq::filter);
                assert(self@.take(i + 1).drop_last() =~= self@.take(i as int));
                assert(self@.take(i + 1).last() == self@[i as int]);
                assert(records_view(out@) =~= self@.take(i + 1).filter(
                    model::matcher(query.search@, query.category@),
                ));
            }
            i += 1;
        }
        proof {
            assert(self@.take(n as int) =~= self@);
        }
        out
    }
}

/// Whether one record matches the query; `qchars` carries the free-text
/// part, split into characters once for the whole scan.
fn record_matches(p: &Product, query: &SearchQuery, qchars: &Vec<char>) -> (r: bool)
    requires
        qchars@ == query.search@,
    ensures
        r == model::matches_search(p@, query.search@, query.category@),
{
    let text_ok = if qchars.len() == 0 {
        true
    } else {
        let name = chars_vec(p.name.as_str());
        if seq_contains(&name, qchars) {
            true
        } else {
            let description = chars_vec(p.description.as_str());
            seq_contains(&description, qchars)
        }
    };
    if !text_ok {
        return false;
    }
    if query.category.as_str().unicode_len() > 0 {
        p.category == query.category
    } else {
        true
    }
}

} // verus!
