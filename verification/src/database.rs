//! Bulk synchronization between the stores: fetching the primary store's
//! whole contents and rebuilding the search index from them, and the
//! decision rule of the loop that waits for the index to finish such a
//! build.

use vstd::prelude::*;

use crate::catalog::Catalog;
use crate::store::records_view;
use crate::structures::Product;

verus! {

/// Fetch every product of the primary store, in its order.
pub fn fetch_products(catalog: &Catalog) -> (r: Vec<Product>)
    ensures
        records_view(r@) == catalog@.primary,
{
    catalog.primary.all()
}

/// Rebuild the search index from the primary store: afterwards the index
/// holds exactly the primary store's records. The primary store is not
/// touched.
pub fn index_products(catalog: &mut Catalog)
    ensures
        final(catalog)@ == crate::model::reindex_transition(old(catalog)@),
{
    let products = catalog.primary.all();
    catalog.index.replace_all(products);
}

/// What a bulk indexing task reports while the catalog waits on it.
pub enum TaskState {
    /// The task is still running.
    Processing,
    /// The task finished and the index holds the documents.
    Succeeded,
    /// The task failed; the index contents are not to be trusted.
    Failed,
}

/// What the waiting loop does next.
pub enum PollAction {
    /// Ask again after a pause.
    Wait,
    /// Stop: the build is done.
    Finish,
    /// Stop and report the build as failed.
    Abort,
}

/// The decision rule of the loop that waits for a bulk indexing task: keep
/// asking while the task runs, stop when it succeeds, give up when it
/// fails.
pub fn poll_action(state: &TaskState) -> (r: PollAction)
    ensures
        r == (match state {
            TaskState::Processing => PollAction::Wait,
            TaskState::Succeeded => PollAction::Finish,
            TaskState::Failed => PollAction::Abort,
        }),
{
    match state {
        TaskState::Processing => PollAction::Wait,
        TaskState::Succeeded => PollAction::Finish,
        TaskState::Failed => PollAction::Abort,
    }
}

} // verus!
