//! The ingestion gateway and the status check: what a request makes of the
//! store, and what is answered.
//!
//! Task identifiers are drawn by the caller, from a random source; the
//! service's own address, `domain`, is the caller's to know.

use crate::logic::store::{
    get_task_data_from_id, ingest_file_to_queue, message_for, LocalStore,
};
use crate::text::{decimal, decimal_string};
use crate::types::errors::{DocStatusError, StoreError};
use crate::types::location::{decode_uri, FileLocation, FileLocationView, LocalPath, S3Location};
use crate::types::stage::{method_or_default, MarkdownConversionMethod};
use crate::types::status::{
    DocStatus, DocStatusResponse, DocStatusResponseView, DocStatusView, TaskID,
};
use vstd::prelude::*;
use vstd::string::*;

verus! {

/// Parameters for ingesting a document sent as a multipart upload.
#[derive(Debug, PartialEq, Eq)]
pub struct DocIngestParams {
    /// File to process, sent as binary.
    pub file: Vec<u8>,
    /// Optional comma-separated list of languages for OCR (e.g., "en,fr").
    pub langs: Option<String>,
    /// Force OCR on every page.
    pub force_ocr: Option<bool>,
    /// Paginate output with page delimiters.
    pub paginate: Option<bool>,
    /// Disable image extraction.
    pub disable_image_extraction: Option<bool>,
    /// Maximum number of pages to process from the start.
    pub max_pages: Option<u32>,
}

/// Parameters for ingesting a document that lies in an object store.
#[derive(Debug, PartialEq, Eq)]
pub struct DocIngestParamsS3 {
    /// Address of the document.
    pub s3_uri: String,
    /// Optional comma-separated list of languages for OCR (e.g., "en,fr").
    pub langs: Option<String>,
    /// What method do you want to use to convert the markdown
    pub conversion_method: Option<MarkdownConversionMethod>,
    /// Force OCR on every page.
    pub force_ocr: Option<bool>,
    /// Paginate output with page delimiters.
    pub paginate: Option<bool>,
    /// Disable image extraction.
    pub disable_image_extraction: Option<bool>,
    /// Maximum number of pages to process from the start.
    pub max_pages: Option<u32>,
}

/// Parameters for ingesting a document that lies on the service's own
/// disk.
#[derive(Debug, PartialEq, Eq)]
pub struct DocIngestParamsDebugLocalPath {
    /// Path of the document.
    pub local_path: LocalPath,
    /// Optional comma-separated list of languages for OCR (e.g., "en,fr").
    pub langs: Option<String>,
    /// Force OCR on every page.
    pub force_ocr: Option<bool>,
    /// What method do you want to use to convert the markdown
    pub conversion_method: Option<MarkdownConversionMethod>,
    /// Paginate output with page delimiters.
    pub paginate: Option<bool>,
    /// Disable image extraction.
    pub disable_image_extraction: Option<bool>,
    /// Maximum number of pages to process from the start.
    pub max_pages: Option<u32>,
}

/// The method a request asks for, or `Simple` when it names none.
pub open spec fn requested_method(
    requested: Option<MarkdownConversionMethod>,
) -> MarkdownConversionMethod {
    match requested {
        Some(method) => method,
        None => MarkdownConversionMethod::Simple,
    }
}

/// The store took in the task of `status`: its record is written, its
/// message waits behind all others, and nothing else changed.
pub open spec fn took_in(before: LocalStore, after: LocalStore, status: DocStatusView) -> bool {
    &&& after.records() == before.records().insert(status.request_id, status)
    &&& after.pending() == before.pending().push(message_for(status))
    &&& after.files() == before.files()
    &&& before.wf() ==> after.wf()
}

/// Nothing changed in the store.
pub open spec fn untouched(before: LocalStore, after: LocalStore) -> bool {
    &&& after.records() == before.records()
    &&& after.pending() == before.pending()
    &&& after.files() == before.files()
}

/// Submits the task `task_id` for the document at `location` and answers
/// with its first report.
fn submit(
    store: &mut LocalStore,
    domain: &str,
    task_id: TaskID,
    location: FileLocation,
    method: MarkdownConversionMethod,
) -> (response: DocStatusResponse)
    ensures
        took_in(*old(store), *final(store), DocStatusView::submitted(task_id, location@, method)),
        response@ == DocStatusResponseView::of(
            DocStatusView::submitted(task_id, location@, method),
            domain@,
        ),
{
    let task_status = DocStatus::new_from_id_loc(task_id, location, method);
    ingest_file_to_queue(store, task_status.clone());
    DocStatusResponse::from_status(task_status, domain)
}

/// Ingests a document that lies in an object store.
///
/// An address that names a location submits a task for it, by the
/// requested method or by `Simple`. Any other address is refused with the
/// text of `InvalidLocation`, and nothing is submitted.
pub fn pdf_ingest_s3(
    store: &mut LocalStore,
    domain: &str,
    task_id: TaskID,
    ingest_params: DocIngestParamsS3,
) -> (answer: Result<DocStatusResponse, String>)
    ensures
        match decode_uri(ingest_params.s3_uri@) {
            Some(location) => {
                let submitted = DocStatusView::submitted(
                    task_id,
                    FileLocationView::S3Location(location),
                    requested_method(ingest_params.conversion_method),
                );
                &&& answer matches Ok(response)
                &&& response@ == DocStatusResponseView::of(submitted, domain@)
                &&& took_in(*old(store), *final(store), submitted)
            },
            None => {
                &&& answer matches Err(refusal)
                &&& refusal@ == StoreError::InvalidLocation.message()
                &&& untouched(*old(store), *final(store))
            },
        },
{
    match S3Location::try_from(ingest_params.s3_uri) {
        Ok(location) => {
            let conversion_method = method_or_default(ingest_params.conversion_method);
            let location = FileLocation::S3Location(location);
            Ok(submit(store, domain, task_id, location, conversion_method))
        },
        Err(failure) => Err(failure.to_string()),
    }
}

/// Ingests a document that lies on the service's own disk: always submits
/// a task for the path, by the requested method or by `Simple`.
pub fn pdf_ingest_debug_local_path(
    store: &mut LocalStore,
    domain: &str,
    task_id: TaskID,
    ingest_params: DocIngestParamsDebugLocalPath,
) -> (answer: Result<DocStatusResponse, String>)
    ensures
        ({
            let submitted = DocStatusView::submitted(
                task_id,
                FileLocationView::LocalPath(ingest_params.local_path@),
                requested_method(ingest_params.conversion_method),
            );
            &&& answer matches Ok(response)
            &&& response@ == DocStatusResponseView::of(submitted, domain@)
            &&& took_in(*old(store), *final(store), submitted)
        }),
{
    let conversion_method = method_or_default(ingest_params.conversion_method);
    Ok(
        submit(
            store,
            domain,
            task_id,
            FileLocation::LocalPath(ingest_params.local_path),
            conversion_method,
        ),
    )
}

/// What a part of an upload is to the gateway.
#[derive(Clone, Copy, Debug, PartialEq, Eq, Structural)]
pub enum UploadPart {
    /// The part named `file`: it holds the document, and no part after it
    /// is read.
    File,
    /// A part with another name: it is passed over.
    Other,
    /// A part without a name: the reading of the upload ends here.
    Unnamed,
}

/// What the part named `name` is to the gateway.
pub open spec fn part_kind(name: Option<String>) -> UploadPart {
    match name {
        None => UploadPart::Unnamed,
        Some(text) => if text@ == "file"@ {
            UploadPart::File
        } else {
            UploadPart::Other
        },
    }
}

/// Whether an upload carries the document: its parts are read in order up
/// to the first part without a name, and one of those read is named
/// `file`.
pub open spec fn carries_file(part_names: Seq<Option<String>>) -> bool
    decreases part_names.len(),
{
    if part_names.len() == 0 {
        false
    } else {
        match part_kind(part_names[0]) {
            UploadPart::File => true,
            UploadPart::Other => carries_file(part_names.skip(1)),
            UploadPart::Unnamed => false,
        }
    }
}

/// Decides what a part of an upload is, by its name.
pub fn upload_part(name: &Option<String>) -> (part: UploadPart)
    ensures
        part == part_kind(*name),
{
    match name {
        None => UploadPart::Unnamed,
        Some(text) => {
            let wanted = String::from_str("file");
            if *text == wanted {
                UploadPart::File
            } else {
                UploadPart::Other
            }
        },
    }
}

/// Where the document of an uploaded task is kept.
pub open spec fn upload_path(task_id: TaskID) -> Seq<char> {
    "/tmp/save/to/this/path"@ + decimal(task_id as nat)
}

/// Ingests a document sent as a multipart upload whose parts are named
/// `part_names`, in order.
///
/// An upload that carries the document submits a task for the upload's
/// path, by `Simple`. Any other upload is refused, and nothing is
/// submitted.
pub fn pdf_ingest(
    store: &mut LocalStore,
    domain: &str,
    task_id: TaskID,
    part_names: &Vec<Option<String>>,
) -> (answer: Result<DocStatusResponse, String>)
    ensures
        if carries_file(part_names@) {
            let submitted = DocStatusView::submitted(
                task_id,
                FileLocationView::LocalPath(upload_path(task_id)),
                MarkdownConversionMethod::Simple,
            );
            &&& answer matches Ok(response)
            &&& response@ == DocStatusResponseView::of(submitted, domain@)
            &&& took_in(*old(store), *final(store), submitted)
        } else {
            &&& answer matches Err(refusal)
            &&& refusal@ == "Multipart was improperely formatted"@
            &&& untouched(*old(store), *final(store))
        },
{
    let mut position: usize = 0;
    assert(part_names@.skip(0) =~= part_names@);
    while position < part_names.len()
        invariant
            position <= part_names.len(),
            carries_file(part_names@) == carries_file(part_names@.skip(position as int)),
            *store == *old(store),
        decreases part_names.len() - position,
    {
        let ghost unread = part_names@.skip(position as int);
        assert(unread[0] == part_names@[position as int]);
        assert(unread.skip(1) =~= part_names@.skip(position + 1));
        match upload_part(&part_names[position]) {
            UploadPart::File => {
                let file_path = String::from_str("/tmp/save/to/this/path").concat(
                    decimal_string(task_id).as_str(),
                );
                return Ok(
                    submit(
                        store,
                        domain,
                        task_id,
                        FileLocation::LocalPath(file_path),
                        MarkdownConversionMethod::Simple,
                    ),
                );
            },
            UploadPart::Unnamed => {
                return Err(String::from_str("Multipart was improperely formatted"));
            },
            UploadPart::Other => {},
        }
        position = position + 1;
    }
    Err(String::from_str("Multipart was improperely formatted"))
}

/// Reports the task `task_id`. A task that was never submitted is
/// `DocidNotFound`.
pub fn pdf_get_status(store: &LocalStore, domain: &str, task_id: TaskID) -> (answer: Result<
    DocStatusResponse,
    DocStatusError,
>)
    ensures
        match answer {
            Ok(response) => {
                &&& store.records().contains_key(task_id)
                &&& response@ == DocStatusResponseView::of(store.records()[task_id], domain@)
            },
            Err(failure) => failure is DocidNotFound && !store.records().contains_key(task_id),
        },
{
    match get_task_data_from_id(store, task_id) {
        Ok(status) => Ok(DocStatusResponse::from_status(status, domain)),
        Err(failure) => Err(failure),
    }
}

} // verus!
