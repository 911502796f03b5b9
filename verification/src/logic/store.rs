//! The composite that bundles blob storage, the task queue and the status
//! store, and the operations the gateway and the worker perform on it.

use crate::logic::local_store::{
    InMemoryStatusStore, InMemoryTaskQueue, LocalFileStore, StatusStoreImplementation,
    TaskQueueImplementation,
};
use crate::types::errors::DocStatusError;
use crate::types::status::{DocStatus, DocStatusView, TaskID, TaskMessage, TaskMessageView};
use vstd::prelude::*;

verus! {

/// A composite store bundling file storage, task queue, and status store.
pub struct LocalStore {
    file_store: LocalFileStore,
    task_queue: InMemoryTaskQueue,
    status_store: InMemoryStatusStore,
}

impl LocalStore {
    /// The messages that wait, oldest first.
    pub closed spec fn pending(&self) -> Seq<TaskMessageView> {
        self.task_queue.pending()
    }

    /// The record held under each identifier.
    pub closed spec fn records(&self) -> Map<TaskID, DocStatusView> {
        self.status_store.records()
    }

    /// The blob storage of the composite.
    pub closed spec fn files(&self) -> LocalFileStore {
        self.file_store
    }

    /// Every message that waits has a record. A record is written before
    /// its message is queued and is never removed, so this holds of a
    /// composite from the moment it is made, and a worker that comes to
    /// such a composite finds a record for whatever message it takes.
    pub open spec fn wf(&self) -> bool {
        forall|i: int|
            0 <= i < self.pending().len() ==> self.records().contains_key(
                #[trigger] self.pending()[i].id,
            )
    }

    /// A composite with the given blob storage, an empty queue and no
    /// records.
    pub fn new(file_store: LocalFileStore) -> (store: Self)
        ensures
            store.files() == file_store,
            store.pending() == Seq::<TaskMessageView>::empty(),
            store.records() == Map::<TaskID, DocStatusView>::empty(),
            store.wf(),
    {
        LocalStore {
            file_store,
            task_queue: InMemoryTaskQueue::new(),
            status_store: InMemoryStatusStore::new(),
        }
    }

    /// The blob storage of the composite.
    pub fn file_store(&self) -> (files: &LocalFileStore)
        ensures
            *files == self.files(),
    {
        &self.file_store
    }
}

/// The message that queues the task of `status`.
pub open spec fn message_for(status: DocStatusView) -> TaskMessageView {
    TaskMessageView { id: status.request_id, location: status.file_location }
}

/// Enqueue a new document processing task: the record is written first,
/// then its message is queued behind all that wait.
pub fn ingest_file_to_queue(store: &mut LocalStore, status: DocStatus)
    ensures
        final(store).records() == old(store).records().insert(status.request_id, status@),
        final(store).pending() == old(store).pending().push(message_for(status@)),
        final(store).files() == old(store).files(),
        old(store).wf() ==> final(store).wf(),
{
    let message = TaskMessage { id: status.request_id, location: status.file_location.clone() };
    let _ = store.status_store.set_doc_status(status);
    let _ = store.task_queue.enqueue(message);
}

/// Update an existing task's processing status.
pub fn update_task_data(store: &mut LocalStore, status: DocStatus) -> (done: Result<
    (),
    DocStatusError,
>)
    ensures
        done is Ok,
        final(store).records() == old(store).records().insert(status.request_id, status@),
        final(store).pending() == old(store).pending(),
        final(store).files() == old(store).files(),
        old(store).wf() ==> final(store).wf(),
{
    store.status_store.set_doc_status(status)
}

/// Dequeue the next file processing task, returning its DocStatus: the
/// oldest message is taken off the queue, and the record held under its
/// identifier is returned. `None` says that no message waited, or that the
/// message taken has no record; such a message is dropped.
pub fn get_file_task_from_queue(store: &mut LocalStore) -> (next: Option<DocStatus>)
    ensures
        old(store).wf() ==> final(store).wf(),
        final(store).records() == old(store).records(),
        final(store).files() == old(store).files(),
        final(store).pending() == if old(store).pending().len() > 0 {
            old(store).pending().skip(1)
        } else {
            old(store).pending()
        },
        match next {
            Some(status) => {
                &&& old(store).pending().len() > 0
                &&& old(store).records().contains_key(old(store).pending()[0].id)
                &&& status@ == old(store).records()[old(store).pending()[0].id]
            },
            None => old(store).pending().len() == 0 || !old(store).records().contains_key(
                old(store).pending()[0].id,
            ),
        },
{
    match store.task_queue.dequeue() {
        Ok(Some(task)) => store.status_store.get_doc_status(task.id).ok(),
        _ => None,
    }
}

/// Retrieve the stored DocStatus for a given task ID. An identifier under
/// which nothing was written is `DocidNotFound`.
pub fn get_task_data_from_id(store: &LocalStore, id: TaskID) -> (found: Result<
    DocStatus,
    DocStatusError,
>)
    ensures
        match found {
            Ok(status) => store.records().contains_key(id) && status@ == store.records()[id],
            Err(failure) => failure is DocidNotFound && !store.records().contains_key(id),
        },
{
    store.status_store.get_doc_status(id)
}

} // verus!
