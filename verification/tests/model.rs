use crimson_docs::types::{
    make_request_leaf, make_request_url, DocStatus, DocStatusError, DocStatusResponse,
    FileLocation, MarkdownConversionMethod, ProcessingStage, QueueError, S3Location, StoreError,
    TaskMessage,
};
use crimson_docs::types::stage::method_or_default;
use std::collections::HashMap;

fn local(path: &str) -> FileLocation {
    FileLocation::LocalPath(path.to_string())
}

#[test]
fn only_completed_is_successful() {
    assert!(ProcessingStage::Completed.is_successful());
    assert!(!ProcessingStage::Waiting.is_successful());
    assert!(!ProcessingStage::Processing.is_successful());
    assert!(!ProcessingStage::Errored.is_successful());
}

#[test]
fn completed_and_errored_are_finished() {
    assert!(ProcessingStage::Completed.is_finished());
    assert!(ProcessingStage::Errored.is_finished());
    assert!(!ProcessingStage::Waiting.is_finished());
    assert!(!ProcessingStage::Processing.is_finished());
}

#[test]
fn the_default_method_is_simple() {
    assert_eq!(MarkdownConversionMethod::default(), MarkdownConversionMethod::Simple);
    assert_eq!(method_or_default(None), MarkdownConversionMethod::Simple);
    assert_eq!(
        method_or_default(Some(MarkdownConversionMethod::Marker)),
        MarkdownConversionMethod::Marker
    );
    assert_eq!(
        method_or_default(Some(MarkdownConversionMethod::OlmOcr)),
        MarkdownConversionMethod::OlmOcr
    );
}

#[test]
fn a_new_record_waits_and_holds_no_result() {
    let status =
        DocStatus::new_from_id_loc(42, local("/tmp/doc.pdf"), MarkdownConversionMethod::Marker);
    assert_eq!(status.request_id, 42);
    assert_eq!(status.file_location, local("/tmp/doc.pdf"));
    assert_eq!(status.conversion_method, MarkdownConversionMethod::Marker);
    assert_eq!(status.status, ProcessingStage::Waiting);
    assert_eq!(status.markdown, None);
    assert_eq!(status.error, None);
    assert_eq!(status.images, None);
    assert_eq!(status.metadata, None);
}

#[test]
fn a_copy_of_a_record_equals_it() {
    let mut images = HashMap::new();
    images.insert("a.png".to_string(), "aGVsbG8=".to_string());
    let mut status = DocStatus::new_from_id_loc(
        9,
        FileLocation::S3Location(S3Location {
            key: "k".to_string(),
            bucket: "b".to_string(),
            endpoint: "https://r.d".to_string(),
            region: "r".to_string(),
        }),
        MarkdownConversionMethod::Simple,
    );
    status.images = Some(images);
    status.markdown = Some("# Title".to_string());
    status.status = ProcessingStage::Completed;
    assert_eq!(status.clone(), status);
    let message = TaskMessage { id: 9, location: status.file_location.clone() };
    assert_eq!(message.clone(), message);
}

#[test]
fn the_poll_address_ends_in_the_decimal_identifier() {
    assert_eq!(make_request_leaf(0), "/v1/status/0");
    assert_eq!(make_request_leaf(1234), "/v1/status/1234");
    assert_eq!(make_request_leaf(u64::MAX), "/v1/status/18446744073709551615");
    assert_eq!(
        make_request_url("https://docs.example.org", 77),
        "https://docs.example.org/v1/status/77"
    );
    assert_eq!(make_request_url("", 5), "/v1/status/5");
}

#[test]
fn a_report_of_a_waiting_task() {
    let status = DocStatus::new_from_id_loc(3, local("a.pdf"), MarkdownConversionMethod::Simple);
    let response = DocStatusResponse::from_status(status, "http://localhost:14423");
    assert_eq!(response.request_id, 3);
    assert_eq!(response.request_check_url, "http://localhost:14423/v1/status/3");
    assert_eq!(response.request_check_leaf, "/v1/status/3");
    assert_eq!(response.status, ProcessingStage::Waiting);
    assert!(!response.success);
    assert!(!response.completed);
    assert_eq!(response.markdown, None);
    assert_eq!(response.error, None);
    assert_eq!(response.images, None);
    assert_eq!(response.metadata, None);
}

#[test]
fn a_report_of_a_completed_task() {
    let mut metadata = HashMap::new();
    metadata.insert("pages".to_string(), "2".to_string());
    let mut status =
        DocStatus::new_from_id_loc(8, local("a.pdf"), MarkdownConversionMethod::Simple);
    status.status = ProcessingStage::Completed;
    status.markdown = Some("# Hello".to_string());
    status.metadata = Some(metadata.clone());
    let response = DocStatusResponse::from_status(status, "d");
    assert!(response.success);
    assert!(response.completed);
    assert_eq!(response.markdown, Some("# Hello".to_string()));
    assert_eq!(response.metadata, Some(metadata));
    assert_eq!(response.request_check_url, "d/v1/status/8");
}

#[test]
fn a_report_of_an_errored_task() {
    let mut status =
        DocStatus::new_from_id_loc(8, local("a.pdf"), MarkdownConversionMethod::Simple);
    status.status = ProcessingStage::Errored;
    status.error = Some("Encountered error: gone".to_string());
    let response = DocStatusResponse::from_status(status, "d");
    assert!(!response.success);
    assert!(response.completed);
    assert_eq!(response.error, Some("Encountered error: gone".to_string()));
    assert_eq!(response.status, ProcessingStage::Errored);
}

#[test]
fn a_report_of_a_task_under_way() {
    let mut status =
        DocStatus::new_from_id_loc(8, local("a.pdf"), MarkdownConversionMethod::Simple);
    status.status = ProcessingStage::Processing;
    let response = DocStatusResponse::from_status(status, "d");
    assert!(!response.success);
    assert!(!response.completed);
}

#[test]
fn store_errors_as_text() {
    assert_eq!(StoreError::S3("timeout".to_string()).to_string(), "S3 error: timeout");
    assert_eq!(
        StoreError::Serde("eof".to_string()).to_string(),
        "Serialization error: eof"
    );
    assert_eq!(StoreError::LocalFile.to_string(), "Error in Local File System");
    assert_eq!(StoreError::InvalidLocation.to_string(), "Invalid file location for File");
}

#[test]
fn queue_errors_as_text() {
    assert_eq!(QueueError::QueueEmpty.to_string(), "Processing Queue is Empty");
    assert_eq!(QueueError::Redis("down".to_string()).to_string(), "Redis error: down");
    assert_eq!(QueueError::Serde("eof".to_string()).to_string(), "Serialization error: eof");
}

#[test]
fn status_errors_as_text() {
    assert_eq!(DocStatusError::DocidNotFound.to_string(), "Doc ID Not Found");
    assert_eq!(DocStatusError::Redis("down".to_string()).to_string(), "Redis error: down");
    assert_eq!(
        DocStatusError::Serde("eof".to_string()).to_string(),
        "Serialization error: eof"
    );
}
