//! The record of a task, the message that queues it, and the shape in
//! which a status check reports it.

use crate::text::{decimal, decimal_string};
use crate::types::location::{FileLocation, FileLocationView};
use crate::types::stage::{MarkdownConversionMethod, ProcessingStage};
use std::collections::HashMap;
use vstd::prelude::*;
use vstd::string::*;

verus! {

/// Identifier of one ingestion request. It is the only key that joins the
/// queue, the status store and the status check.
pub type TaskID = u64;

/// Everything known of one task.
#[derive(Debug, PartialEq, Eq)]
pub struct DocStatus {
    pub file_location: FileLocation,
    pub request_id: TaskID,
    pub conversion_method: MarkdownConversionMethod,
    pub markdown: Option<String>,
    pub status: ProcessingStage,
    pub images: Option<HashMap<String, String>>,
    pub metadata: Option<HashMap<String, String>>,
    pub error: Option<String>,
}

/// Mathematical content of a [`DocStatus`].
pub struct DocStatusView {
    pub file_location: FileLocationView,
    pub request_id: TaskID,
    pub conversion_method: MarkdownConversionMethod,
    pub markdown: Option<Seq<char>>,
    pub status: ProcessingStage,
    pub images: Option<Map<String, String>>,
    pub metadata: Option<Map<String, String>>,
    pub error: Option<Seq<char>>,
}

/// Content of an optional text.
pub open spec fn text_view(text: Option<String>) -> Option<Seq<char>> {
    match text {
        Some(t) => Some(t@),
        None => None,
    }
}

/// Content of an optional string-keyed table.
pub open spec fn table_view(table: Option<HashMap<String, String>>) -> Option<
    Map<String, String>,
> {
    match table {
        Some(t) => Some(t@),
        None => None,
    }
}

impl View for DocStatus {
    type V = DocStatusView;

    open spec fn view(&self) -> DocStatusView {
        DocStatusView {
            file_location: self.file_location@,
            request_id: self.request_id,
            conversion_method: self.conversion_method,
            markdown: text_view(self.markdown),
            status: self.status,
            images: table_view(self.images),
            metadata: table_view(self.metadata),
            error: text_view(self.error),
        }
    }
}

impl DocStatusView {
    /// The record of a task that was just submitted: `Waiting`, with no
    /// result of any kind.
    pub open spec fn submitted(
        id: TaskID,
        location: FileLocationView,
        method: MarkdownConversionMethod,
    ) -> DocStatusView {
        DocStatusView {
            file_location: location,
            request_id: id,
            conversion_method: method,
            markdown: None,
            status: ProcessingStage::Waiting,
            images: None,
            metadata: None,
            error: None,
        }
    }

    /// A result is present only in the terminal stage it belongs to:
    /// markdown only when `Completed`, an error only when `Errored`.
    pub open spec fn exclusive(self) -> bool {
        &&& self.markdown is Some ==> self.status == ProcessingStage::Completed
        &&& self.error is Some ==> self.status == ProcessingStage::Errored
    }
}

/// A copy of an optional text.
pub fn copy_text(text: &Option<String>) -> (copy: Option<String>)
    ensures
        copy == *text,
{
    match text {
        Some(t) => Some(t.clone()),
        None => None,
    }
}

/// A copy of an optional table, with the same entries.
pub fn copy_table(table: &Option<HashMap<String, String>>) -> (copy: Option<
    HashMap<String, String>,
>)
    ensures
        table_view(copy) == table_view(*table),
{
    match table {
        Some(t) => Some(t.clone()),
        None => None,
    }
}

impl Clone for DocStatus {
    fn clone(&self) -> (copy: Self)
        ensures
            copy@ == self@,
    {
        DocStatus {
            file_location: self.file_location.clone(),
            request_id: self.request_id,
            conversion_method: self.conversion_method,
            markdown: copy_text(&self.markdown),
            status: self.status,
            images: copy_table(&self.images),
            metadata: copy_table(&self.metadata),
            error: copy_text(&self.error),
        }
    }
}

impl DocStatus {
    /// The record of a newly submitted task.
    pub fn new_from_id_loc(
        id: TaskID,
        location: FileLocation,
        method: MarkdownConversionMethod,
    ) -> (status: Self)
        ensures
            status@ == DocStatusView::submitted(id, location@, method),
            status.file_location == location,
    {
        DocStatus {
            file_location: location,
            conversion_method: method,
            request_id: id,
            markdown: None,
            status: ProcessingStage::Waiting,
            metadata: None,
            images: None,
            error: None,
        }
    }
}

/// Payload of the task queue: enough of a [`DocStatus`] to find the record
/// and the document again.
#[derive(Debug, PartialEq, Eq)]
pub struct TaskMessage {
    pub id: TaskID,
    pub location: FileLocation,
}

/// Mathematical content of a [`TaskMessage`].
pub struct TaskMessageView {
    pub id: TaskID,
    pub location: FileLocationView,
}

impl View for TaskMessage {
    type V = TaskMessageView;

    open spec fn view(&self) -> TaskMessageView {
        TaskMessageView { id: self.id, location: self.location@ }
    }
}

impl Clone for TaskMessage {
    fn clone(&self) -> (copy: Self)
        ensures
            copy == *self,
    {
        TaskMessage { id: self.id, location: self.location.clone() }
    }
}

/// Path under which the status of task `id` is served.
pub open spec fn request_leaf(id: TaskID) -> Seq<char> {
    "/v1/status/"@ + decimal(id as nat)
}

/// Path under which the status of task `id` is served: `/v1/status/`
/// followed by the identifier in decimal notation.
pub fn make_request_leaf(id: TaskID) -> (leaf: String)
    ensures
        leaf@ == request_leaf(id),
{
    let number = decimal_string(id);
    String::from_str("/v1/status/").concat(number.as_str())
}

/// Full address at which the status of task `id` is served by `domain`.
pub fn make_request_url(domain: &str, id: TaskID) -> (url: String)
    ensures
        url@ == domain@ + request_leaf(id),
{
    let leaf = make_request_leaf(id);
    String::from_str(domain).concat(leaf.as_str())
}

/// What a status check reports of a task.
#[derive(Debug, PartialEq, Eq)]
pub struct DocStatusResponse {
    pub request_id: TaskID,
    pub request_check_url: String,
    pub request_check_leaf: String,
    pub markdown: Option<String>,
    pub status: ProcessingStage,
    pub success: bool,
    pub completed: bool,
    pub images: Option<HashMap<String, String>>,
    pub metadata: Option<HashMap<String, String>>,
    pub error: Option<String>,
}

/// Mathematical content of a [`DocStatusResponse`].
pub struct DocStatusResponseView {
    pub request_id: TaskID,
    pub request_check_url: Seq<char>,
    pub request_check_leaf: Seq<char>,
    pub markdown: Option<Seq<char>>,
    pub status: ProcessingStage,
    pub success: bool,
    pub completed: bool,
    pub images: Option<Map<String, String>>,
    pub metadata: Option<Map<String, String>>,
    pub error: Option<Seq<char>>,
}

impl View for DocStatusResponse {
    type V = DocStatusResponseView;

    open spec fn view(&self) -> DocStatusResponseView {
        DocStatusResponseView {
            request_id: self.request_id,
            request_check_url: self.request_check_url@,
            request_check_leaf: self.request_check_leaf@,
            markdown: text_view(self.markdown),
            status: self.status,
            success: self.success,
            completed: self.completed,
            images: table_view(self.images),
            metadata: table_view(self.metadata),
            error: text_view(self.error),
        }
    }
}

impl Clone for DocStatusResponse {
    fn clone(&self) -> (copy: Self)
        ensures
            copy@ == self@,
    {
        DocStatusResponse {
            request_id: self.request_id,
            request_check_url: self.request_check_url.clone(),
            request_check_leaf: self.request_check_leaf.clone(),
            markdown: copy_text(&self.markdown),
            status: self.status,
            success: self.success,
            completed: self.completed,
            images: copy_table(&self.images),
            metadata: copy_table(&self.metadata),
            error: copy_text(&self.error),
        }
    }
}

impl DocStatusResponseView {
    /// The report of `status` by a service reachable at `domain`: the
    /// record's results, the two forms of its poll address, and the two
    /// flags derived from its stage.
    pub open spec fn of(status: DocStatusView, domain: Seq<char>) -> DocStatusResponseView {
        DocStatusResponseView {
            request_id: status.request_id,
            request_check_url: domain + request_leaf(status.request_id),
            request_check_leaf: request_leaf(status.request_id),
            markdown: status.markdown,
            status: status.status,
            success: status.status.spec_is_successful(),
            completed: status.status.spec_is_finished(),
            images: status.images,
            metadata: status.metadata,
            error: status.error,
        }
    }
}

impl DocStatusResponse {
    /// Projects a record into the shape a status check reports.
    pub fn from_status(input: DocStatus, domain: &str) -> (response: Self)
        ensures
            response@ == DocStatusResponseView::of(input@, domain@),
    {
        DocStatusResponse {
            request_id: input.request_id,
            request_check_url: make_request_url(domain, input.request_id),
            request_check_leaf: make_request_leaf(input.request_id),
            markdown: input.markdown,
            status: input.status,
            success: input.status.is_successful(),
            completed: input.status.is_finished(),
            images: input.images,
            metadata: input.metadata,
            error: input.error,
        }
    }
}

} // verus!
