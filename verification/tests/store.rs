use crimson_docs::logic::served_backend::{metadata_key, task_queue_key, ObjectAddress};
use crimson_docs::logic::{
    get_file_task_from_queue, get_task_data_from_id, ingest_file_to_queue, update_task_data,
    DownloadPlan, FetchOutcome, FetchRequest, InMemoryStatusStore, InMemoryTaskQueue,
    LocalFileStore, LocalStore, S3ConfigParams, S3FileStore, S3RedisConfig,
    StatusStoreImplementation, TaskQueueImplementation,
};
use crimson_docs::types::{
    DocStatus, DocStatusError, FileLocation, MarkdownConversionMethod, ProcessingStage,
    S3Location, StoreError, TaskMessage,
};

fn local(path: &str) -> FileLocation {
    FileLocation::LocalPath(path.to_string())
}

fn object(bucket: &str, key: &str) -> FileLocation {
    FileLocation::S3Location(S3Location {
        key: key.to_string(),
        bucket: bucket.to_string(),
        endpoint: "https://sfo3.digitaloceanspaces.com".to_string(),
        region: "sfo3".to_string(),
    })
}

fn message(id: u64) -> TaskMessage {
    TaskMessage { id, location: local(&format!("/tmp/{}.pdf", id)) }
}

fn record(id: u64) -> DocStatus {
    let location = local(&format!("/tmp/{}.pdf", id));
    DocStatus::new_from_id_loc(id, location, MarkdownConversionMethod::Simple)
}

fn config() -> S3ConfigParams {
    S3ConfigParams {
        endpoint: "https://sfo3.digitaloceanspaces.com".to_string(),
        region: "sfo3".to_string(),
        default_bucket: "crimsondocs".to_string(),
        access_key: "access".to_string(),
        secret_key: "secret".to_string(),
    }
}

fn composite() -> LocalStore {
    LocalStore::new(LocalFileStore::new("/data".to_string(), config()))
}

#[test]
fn messages_leave_in_the_order_they_came() {
    let mut queue = InMemoryTaskQueue::new();
    for id in [5u64, 1, 9, 3, 7] {
        assert_eq!(queue.enqueue(message(id)), Ok(()));
    }
    for id in [5u64, 1, 9, 3, 7] {
        assert_eq!(queue.dequeue(), Ok(Some(message(id))));
    }
    assert_eq!(queue.dequeue(), Ok(None));
}

#[test]
fn an_empty_queue_yields_no_message() {
    let mut queue = InMemoryTaskQueue::new();
    assert_eq!(queue.dequeue(), Ok(None));
    assert_eq!(queue.dequeue(), Ok(None));
    assert_eq!(queue.enqueue(message(1)), Ok(()));
    assert_eq!(queue.dequeue(), Ok(Some(message(1))));
    assert_eq!(queue.dequeue(), Ok(None));
}

#[test]
fn enqueues_and_dequeues_may_alternate() {
    let mut queue = InMemoryTaskQueue::new();
    queue.enqueue(message(1)).unwrap();
    queue.enqueue(message(2)).unwrap();
    assert_eq!(queue.dequeue(), Ok(Some(message(1))));
    queue.enqueue(message(3)).unwrap();
    assert_eq!(queue.dequeue(), Ok(Some(message(2))));
    assert_eq!(queue.dequeue(), Ok(Some(message(3))));
    assert_eq!(queue.dequeue(), Ok(None));
}

#[test]
fn each_message_goes_to_one_consumer() {
    let mut queue = InMemoryTaskQueue::new();
    for id in 0..20u64 {
        queue.enqueue(message(id)).unwrap();
    }
    let mut received: Vec<Vec<u64>> = vec![Vec::new(), Vec::new(), Vec::new()];
    let turns = [2usize, 0, 0, 1, 2, 2, 1, 0, 1, 1, 2, 0, 0, 0, 1, 2, 1, 2, 0, 1, 2, 0, 1];
    for consumer in turns {
        if let Ok(Some(task)) = queue.dequeue() {
            received[consumer].push(task.id);
        }
    }
    let mut seen = vec![0u32; 20];
    for ids in &received {
        for id in ids {
            seen[*id as usize] += 1;
        }
    }
    assert_eq!(seen, vec![1u32; 20]);
    assert_eq!(received[2][0], 0);
    assert_eq!(received[0][0], 1);
}

#[test]
fn an_identifier_never_written_is_not_found() {
    let mut store = InMemoryStatusStore::new();
    assert_eq!(store.get_doc_status(1), Err(DocStatusError::DocidNotFound));
    store.set_doc_status(record(2)).unwrap();
    store.set_doc_status(record(3)).unwrap();
    assert_eq!(store.get_doc_status(1), Err(DocStatusError::DocidNotFound));
    assert_eq!(store.get_doc_status(u64::MAX), Err(DocStatusError::DocidNotFound));
    assert!(store.get_doc_status(2).is_ok());
}

#[test]
fn a_record_is_read_as_it_was_written() {
    let mut store = InMemoryStatusStore::new();
    assert_eq!(store.set_doc_status(record(2)), Ok(()));
    assert_eq!(store.get_doc_status(2), Ok(record(2)));
    assert_eq!(store.get_doc_status(2), Ok(record(2)));
}

#[test]
fn the_last_write_wins() {
    let mut store = InMemoryStatusStore::new();
    store.set_doc_status(record(2)).unwrap();
    let mut later = record(2);
    later.status = ProcessingStage::Completed;
    later.markdown = Some("# Done".to_string());
    store.set_doc_status(later.clone()).unwrap();
    store.set_doc_status(record(4)).unwrap();
    assert_eq!(store.get_doc_status(2), Ok(later.clone()));
    store.set_doc_status(later.clone()).unwrap();
    assert_eq!(store.get_doc_status(2), Ok(later));
    assert_eq!(store.get_doc_status(4), Ok(record(4)));
}

#[test]
fn ingestion_writes_the_record_then_queues_the_task() {
    let mut store = composite();
    ingest_file_to_queue(&mut store, record(11));
    ingest_file_to_queue(&mut store, record(12));
    assert_eq!(get_task_data_from_id(&store, 11), Ok(record(11)));
    assert_eq!(get_task_data_from_id(&store, 12), Ok(record(12)));
    assert_eq!(get_file_task_from_queue(&mut store), Some(record(11)));
    assert_eq!(get_file_task_from_queue(&mut store), Some(record(12)));
    assert_eq!(get_file_task_from_queue(&mut store), None);
    assert_eq!(get_task_data_from_id(&store, 11), Ok(record(11)));
}

#[test]
fn a_dequeued_task_comes_with_its_latest_record() {
    let mut store = composite();
    ingest_file_to_queue(&mut store, record(11));
    let mut changed = record(11);
    changed.conversion_method = MarkdownConversionMethod::Marker;
    assert_eq!(update_task_data(&mut store, changed.clone()), Ok(()));
    assert_eq!(get_file_task_from_queue(&mut store), Some(changed));
}

#[test]
fn an_update_queues_nothing() {
    let mut store = composite();
    assert_eq!(update_task_data(&mut store, record(5)), Ok(()));
    assert_eq!(get_file_task_from_queue(&mut store), None);
    assert_eq!(get_task_data_from_id(&store, 5), Ok(record(5)));
    assert_eq!(get_task_data_from_id(&store, 6), Err(DocStatusError::DocidNotFound));
}

#[test]
fn the_composite_keeps_its_file_store() {
    let store = composite();
    assert_eq!(
        store.file_store().plan_download(&local("x.pdf")),
        DownloadPlan::Local("x.pdf".to_string())
    );
}

#[test]
fn settings_that_are_absent_take_their_defaults() {
    let params =
        S3ConfigParams::from_settings(None, None, None, "access".to_string(), "secret".to_string());
    assert_eq!(params, config());
    let params = S3ConfigParams::from_settings(
        Some("https://ams3.example.org".to_string()),
        Some("ams3".to_string()),
        Some("papers".to_string()),
        "a".to_string(),
        "s".to_string(),
    );
    assert_eq!(params.endpoint, "https://ams3.example.org");
    assert_eq!(params.region, "ams3");
    assert_eq!(params.default_bucket, "papers");
    assert_eq!(params.access_key, "a");
    assert_eq!(params.secret_key, "s");
    assert_eq!(params.clone(), params);
}

#[test]
fn uploading_a_local_file_names_it_by_its_path() {
    let files = LocalFileStore::new("/data".to_string(), config());
    assert_eq!(
        files.upload_from_file("/tmp/in.pdf".to_string(), "ignored/key".to_string()),
        Ok(local("/tmp/in.pdf"))
    );
}

#[test]
fn a_local_document_needs_no_download() {
    let files = LocalFileStore::new("/data".to_string(), config());
    let plan = files.plan_download(&local("/tmp/doc.pdf"));
    assert_eq!(plan, DownloadPlan::Local("/tmp/doc.pdf".to_string()));
    assert_eq!(
        LocalFileStore::finish_download(plan, FetchOutcome::Stored),
        Ok("/tmp/doc.pdf".to_string())
    );
    let plan = files.plan_download(&local("/tmp/doc.pdf"));
    assert_eq!(
        LocalFileStore::finish_download(plan, FetchOutcome::WriteFailed),
        Ok("/tmp/doc.pdf".to_string())
    );
}

fn expected_request(target: &str) -> FetchRequest {
    FetchRequest {
        bucket: "papers".to_string(),
        key: "2024/report.pdf".to_string(),
        region: "sfo3".to_string(),
        endpoint: "https://sfo3.digitaloceanspaces.com".to_string(),
        access_key: "access".to_string(),
        secret_key: "secret".to_string(),
        target: target.to_string(),
    }
}

#[test]
fn an_object_is_fetched_to_its_key_beneath_the_base_directory() {
    let files = LocalFileStore::new("/data".to_string(), config());
    let plan = files.plan_download(&object("papers", "2024/report.pdf"));
    assert_eq!(plan, DownloadPlan::Fetch(expected_request("/data/2024/report.pdf")));
    let files = LocalFileStore::from_settings(None, config());
    let plan = files.plan_download(&object("papers", "2024/report.pdf"));
    assert_eq!(plan, DownloadPlan::Fetch(expected_request("./data/2024/report.pdf")));
    let files = LocalFileStore::from_settings(Some("/srv/docs/".to_string()), config());
    let plan = files.plan_download(&object("papers", "2024/report.pdf"));
    assert_eq!(plan, DownloadPlan::Fetch(expected_request("/srv/docs/2024/report.pdf")));
}

#[test]
fn a_plan_with_a_given_target() {
    let files = LocalFileStore::new("/data".to_string(), config());
    assert_eq!(
        files.plan_download_to(&object("papers", "2024/report.pdf"), "/elsewhere".to_string()),
        DownloadPlan::Fetch(expected_request("/elsewhere"))
    );
    assert_eq!(
        files.plan_download_to(&local("here.pdf"), "/elsewhere".to_string()),
        DownloadPlan::Local("here.pdf".to_string())
    );
}

#[test]
fn what_a_fetch_amounts_to() {
    let plan = || DownloadPlan::Fetch(expected_request("/data/2024/report.pdf"));
    assert_eq!(
        LocalFileStore::finish_download(plan(), FetchOutcome::Stored),
        Ok("/data/2024/report.pdf".to_string())
    );
    assert_eq!(
        LocalFileStore::finish_download(
            plan(),
            FetchOutcome::RequestFailed("no route".to_string())
        ),
        Err(StoreError::S3("no route".to_string()))
    );
    assert_eq!(
        LocalFileStore::finish_download(
            plan(),
            FetchOutcome::BodyUnreadable("connection closed".to_string())
        ),
        Err(StoreError::S3("connection closed".to_string()))
    );
    assert_eq!(
        LocalFileStore::finish_download(plan(), FetchOutcome::WriteFailed),
        Err(StoreError::LocalFile)
    );
}

#[test]
fn only_local_files_are_deleted() {
    let files = LocalFileStore::new("/data".to_string(), config());
    assert_eq!(files.plan_delete(&local("old/a.pdf")), Ok("/data/old/a.pdf".to_string()));
    assert_eq!(
        files.plan_delete(&object("papers", "old/a.pdf")),
        Err(StoreError::InvalidLocation)
    );
    assert_eq!(
        LocalFileStore::plan_delete_at(&local("old/a.pdf"), "/x/old/a.pdf".to_string()),
        Ok("/x/old/a.pdf".to_string())
    );
    assert_eq!(
        LocalFileStore::plan_delete_at(&object("papers", "k"), "/x/k".to_string()),
        Err(StoreError::InvalidLocation)
    );
    assert_eq!(LocalFileStore::finish_delete(true), Ok(()));
    assert_eq!(LocalFileStore::finish_delete(false), Err(StoreError::LocalFile));
}

#[test]
fn the_networked_store_holds_objects_only() {
    let config = S3RedisConfig {
        bucket: "shared".to_string(),
        region: "us-east-1".to_string(),
        redis_url: "redis://127.0.0.1/".to_string(),
    };
    assert_eq!(config.clone(), config);
    let files = S3FileStore::new(&config);
    assert_eq!(files.bucket, "shared");
    assert_eq!(
        files.object_for(&object("papers", "2024/report.pdf")),
        Ok(ObjectAddress { bucket: "shared".to_string(), key: "2024/report.pdf".to_string() })
    );
    assert_eq!(files.object_for(&local("/tmp/doc.pdf")), Err(StoreError::InvalidLocation));
}

#[test]
fn keys_of_the_networked_backend() {
    assert_eq!(task_queue_key(), "task_queue");
    assert_eq!(metadata_key(0), "metadata:0");
    assert_eq!(metadata_key(90210), "metadata:90210");
}
