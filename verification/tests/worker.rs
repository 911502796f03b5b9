use crimson_docs::logic::{
    get_task_data_from_id, ingest_file_to_queue, update_task_data, LocalFileStore, LocalStore,
    S3ConfigParams,
};
use crimson_docs::processing::worker::{
    process_pdf_from_status, worker_poll, worker_step, WorkerAction, WorkerEvent, WorkerPoll,
    WorkerState, IDLE_BACKOFF_SECONDS,
};
use crimson_docs::processing::{process_pdf, ConversionRoute};
use crimson_docs::types::{
    DocStatus, DocStatusError, FileLocation, MarkdownConversionMethod, ProcessingStage,
    S3Location, StoreError,
};

fn local(path: &str) -> FileLocation {
    FileLocation::LocalPath(path.to_string())
}

fn waiting(id: u64) -> DocStatus {
    DocStatus::new_from_id_loc(id, local("/tmp/doc.pdf"), MarkdownConversionMethod::Simple)
}

fn processing(id: u64) -> DocStatus {
    let mut status = waiting(id);
    status.status = ProcessingStage::Processing;
    status
}

fn composite() -> LocalStore {
    let config = S3ConfigParams::from_settings(None, None, None, "a".to_string(), "s".to_string());
    LocalStore::new(LocalFileStore::new("/data".to_string(), config))
}

/// Runs one task to its end against `store`, with the given answers to the
/// download and to the conversion, and returns the stages that were
/// written and the task's result.
fn run(
    store: &mut LocalStore,
    state: WorkerState,
    action: WorkerAction,
    downloaded: Result<String, StoreError>,
    converted: Result<String, String>,
) -> (Vec<ProcessingStage>, Result<(), String>) {
    let mut written = Vec::new();
    let mut downloaded = Some(downloaded);
    let mut converted = Some(converted);
    let mut state = state;
    let mut action = action;
    loop {
        let event = match action {
            WorkerAction::Persist(status) => {
                written.push(status.status);
                WorkerEvent::Persisted(update_task_data(store, status))
            }
            WorkerAction::Download(_) => WorkerEvent::Downloaded(downloaded.take().unwrap()),
            WorkerAction::Convert { .. } => WorkerEvent::Converted(converted.take().unwrap()),
            WorkerAction::Done(result) => return (written, result),
        };
        let next = worker_step(state, event);
        state = next.0;
        action = next.1;
    }
}

#[test]
fn an_idle_worker_rests_two_seconds() {
    let mut store = composite();
    assert_eq!(IDLE_BACKOFF_SECONDS, 2);
    assert_eq!(worker_poll(&mut store), WorkerPoll::Idle { sleep_seconds: 2 });
}

#[test]
fn a_local_document_is_converted() {
    let mut store = composite();
    ingest_file_to_queue(&mut store, waiting(1));
    assert_eq!(get_task_data_from_id(&store, 1).unwrap().status, ProcessingStage::Waiting);
    let (state, action) = match worker_poll(&mut store) {
        WorkerPoll::Task { state, action } => (state, action),
        WorkerPoll::Idle { .. } => panic!("a task waits"),
    };
    assert_eq!(state, WorkerState::Claiming(processing(1)));
    assert_eq!(action, WorkerAction::Persist(processing(1)));
    let (written, result) = run(
        &mut store,
        state,
        action,
        Ok("/tmp/doc.pdf".to_string()),
        Ok("# Hello".to_string()),
    );
    assert_eq!(result, Ok(()));
    assert_eq!(written, vec![ProcessingStage::Processing, ProcessingStage::Completed]);
    let status = get_task_data_from_id(&store, 1).unwrap();
    assert_eq!(status.status, ProcessingStage::Completed);
    assert_eq!(status.markdown, Some("# Hello".to_string()));
    assert_eq!(status.error, None);
    assert_eq!(status.request_id, 1);
    assert_eq!(status.file_location, local("/tmp/doc.pdf"));
    assert_eq!(worker_poll(&mut store), WorkerPoll::Idle { sleep_seconds: 2 });
}

#[test]
fn an_unreachable_object_ends_errored() {
    let mut store = composite();
    let location = FileLocation::S3Location(S3Location {
        key: "missing.pdf".to_string(),
        bucket: "nowhere".to_string(),
        endpoint: "https://unreachable.invalid".to_string(),
        region: "unreachable".to_string(),
    });
    ingest_file_to_queue(
        &mut store,
        DocStatus::new_from_id_loc(2, location, MarkdownConversionMethod::Simple),
    );
    let (state, action) = match worker_poll(&mut store) {
        WorkerPoll::Task { state, action } => (state, action),
        WorkerPoll::Idle { .. } => panic!("a task waits"),
    };
    let (written, result) = run(
        &mut store,
        state,
        action,
        Err(StoreError::S3("dispatch failure".to_string())),
        Ok("never asked for".to_string()),
    );
    assert_eq!(result, Err("S3 error: dispatch failure".to_string()));
    assert_eq!(written, vec![ProcessingStage::Processing, ProcessingStage::Errored]);
    let status = get_task_data_from_id(&store, 2).unwrap();
    assert_eq!(status.status, ProcessingStage::Errored);
    assert_eq!(status.error, Some("Encountered error: S3 error: dispatch failure".to_string()));
    assert_eq!(status.markdown, None);
}

#[test]
fn a_failed_conversion_ends_errored() {
    let mut store = composite();
    let (state, action) = process_pdf_from_status(waiting(3));
    let (written, result) = run(
        &mut store,
        state,
        action,
        Ok("/tmp/doc.pdf".to_string()),
        Err("not a pdf".to_string()),
    );
    assert_eq!(result, Err("Encountered error processing pdf: not a pdf".to_string()));
    assert_eq!(written, vec![ProcessingStage::Processing, ProcessingStage::Errored]);
    let status = get_task_data_from_id(&store, 3).unwrap();
    assert_eq!(
        status.error,
        Some("Encountered error: Encountered error processing pdf: not a pdf".to_string())
    );
    assert_eq!(status.markdown, None);
    assert_eq!(status.status, ProcessingStage::Errored);
}

#[test]
fn a_task_that_has_ended_is_not_written_again() {
    let mut store = composite();
    let mut completed = waiting(8);
    completed.status = ProcessingStage::Completed;
    completed.markdown = Some("# Done".to_string());
    assert_eq!(
        process_pdf_from_status(completed.clone()),
        (WorkerState::Finished, WorkerAction::Done(Err("Task 8 has already ended".to_string())))
    );
    let mut errored = waiting(9);
    errored.status = ProcessingStage::Errored;
    errored.error = Some("Encountered error: gone".to_string());
    assert_eq!(
        process_pdf_from_status(errored),
        (WorkerState::Finished, WorkerAction::Done(Err("Task 9 has already ended".to_string())))
    );

    ingest_file_to_queue(&mut store, completed.clone());
    let (state, action) = match worker_poll(&mut store) {
        WorkerPoll::Task { state, action } => (state, action),
        WorkerPoll::Idle { .. } => panic!("a task waits"),
    };
    let (written, result) =
        run(&mut store, state, action, Ok("p".to_string()), Ok("other".to_string()));
    assert_eq!(written, Vec::new());
    assert_eq!(result, Err("Task 8 has already ended".to_string()));
    assert_eq!(get_task_data_from_id(&store, 8), Ok(completed));
}

#[test]
fn a_task_under_way_is_claimed_again() {
    let (state, action) = process_pdf_from_status(processing(4));
    assert_eq!(state, WorkerState::Claiming(processing(4)));
    assert_eq!(action, WorkerAction::Persist(processing(4)));
}

#[test]
fn the_steps_of_a_run() {
    let (state, action) = process_pdf_from_status(waiting(4));
    assert_eq!(state, WorkerState::Claiming(processing(4)));
    assert_eq!(action, WorkerAction::Persist(processing(4)));
    let (state, action) = worker_step(state, WorkerEvent::Persisted(Ok(())));
    assert_eq!(state, WorkerState::Downloading(processing(4)));
    assert_eq!(action, WorkerAction::Download(local("/tmp/doc.pdf")));
    let (state, action) =
        worker_step(state, WorkerEvent::Downloaded(Ok("/data/doc.pdf".to_string())));
    assert_eq!(state, WorkerState::Converting(processing(4)));
    assert_eq!(
        action,
        WorkerAction::Convert {
            local_path: "/data/doc.pdf".to_string(),
            method: MarkdownConversionMethod::Simple
        }
    );
    let (state, action) = worker_step(state, WorkerEvent::Converted(Ok("text".to_string())));
    assert_eq!(state, WorkerState::Recording { failure: None });
    let mut completed = processing(4);
    completed.status = ProcessingStage::Completed;
    completed.markdown = Some("text".to_string());
    assert_eq!(action, WorkerAction::Persist(completed));
    let (state, action) = worker_step(state, WorkerEvent::Persisted(Ok(())));
    assert_eq!(state, WorkerState::Finished);
    assert_eq!(action, WorkerAction::Done(Ok(())));
}

#[test]
fn a_claim_that_is_not_written_abandons_the_task() {
    let (state, _) = process_pdf_from_status(waiting(407));
    let (state, action) = worker_step(
        state,
        WorkerEvent::Persisted(Err(DocStatusError::Redis("connection reset".to_string()))),
    );
    assert_eq!(state, WorkerState::Finished);
    assert_eq!(
        action,
        WorkerAction::Done(Err(
            "Failed to set status to Processing for task 407: Redis error: connection reset"
                .to_string()
        ))
    );
}

#[test]
fn a_final_record_that_is_not_written_is_reported() {
    let state = WorkerState::Recording { failure: None };
    let (state, action) =
        worker_step(state, WorkerEvent::Persisted(Err(DocStatusError::Serde("eof".to_string()))));
    assert_eq!(state, WorkerState::Finished);
    assert_eq!(
        action,
        WorkerAction::Done(Err(
            "Encountered error pushing final data to db: Serialization error: eof".to_string()
        ))
    );
}

#[test]
fn a_failed_task_reports_its_own_failure() {
    let failed = || WorkerState::Recording { failure: Some("not a pdf".to_string()) };
    assert_eq!(
        worker_step(failed(), WorkerEvent::Persisted(Ok(()))),
        (WorkerState::Finished, WorkerAction::Done(Err("not a pdf".to_string())))
    );
    assert_eq!(
        worker_step(failed(), WorkerEvent::Persisted(Err(DocStatusError::DocidNotFound))),
        (WorkerState::Finished, WorkerAction::Done(Err("not a pdf".to_string())))
    );
}

#[test]
fn a_local_file_failure_ends_errored() {
    let (state, action) =
        worker_step(
            WorkerState::Downloading(processing(5)),
            WorkerEvent::Downloaded(Err(StoreError::LocalFile)),
        );
    assert_eq!(
        state,
        WorkerState::Recording { failure: Some("Error in Local File System".to_string()) }
    );
    let mut errored = processing(5);
    errored.status = ProcessingStage::Errored;
    errored.error = Some("Encountered error: Error in Local File System".to_string());
    assert_eq!(action, WorkerAction::Persist(errored));
}

#[test]
fn an_answer_that_was_not_asked_for_ends_the_run() {
    let stray = || {
        (
            WorkerState::Finished,
            WorkerAction::Done(Err(
                "Worker was given an answer to a request it did not make".to_string()
            )),
        )
    };
    assert_eq!(
        worker_step(
            WorkerState::Claiming(processing(1)),
            WorkerEvent::Converted(Ok("x".to_string()))
        ),
        stray()
    );
    assert_eq!(
        worker_step(WorkerState::Downloading(processing(1)), WorkerEvent::Persisted(Ok(()))),
        stray()
    );
    assert_eq!(
        worker_step(
            WorkerState::Converting(processing(1)),
            WorkerEvent::Downloaded(Ok("p".to_string()))
        ),
        stray()
    );
    assert_eq!(
        worker_step(
            WorkerState::Recording { failure: None },
            WorkerEvent::Converted(Err("x".to_string()))
        ),
        stray()
    );
    assert_eq!(worker_step(WorkerState::Finished, WorkerEvent::Persisted(Ok(()))), stray());
}

#[test]
fn the_method_of_the_record_is_the_method_of_the_conversion() {
    let mut status = processing(6);
    status.conversion_method = MarkdownConversionMethod::OlmOcr;
    let (_, action) =
        worker_step(WorkerState::Downloading(status), WorkerEvent::Downloaded(Ok("p".to_string())));
    assert_eq!(
        action,
        WorkerAction::Convert {
            local_path: "p".to_string(),
            method: MarkdownConversionMethod::OlmOcr
        }
    );
}

#[test]
fn tasks_are_processed_in_the_order_they_were_ingested() {
    let mut store = composite();
    for id in [30u64, 10, 20] {
        ingest_file_to_queue(&mut store, waiting(id));
    }
    for id in [30u64, 10, 20] {
        match worker_poll(&mut store) {
            WorkerPoll::Task { state, .. } => {
                assert_eq!(state, WorkerState::Claiming(processing(id)))
            }
            WorkerPoll::Idle { .. } => panic!("a task waits"),
        }
    }
    assert_eq!(worker_poll(&mut store), WorkerPoll::Idle { sleep_seconds: 2 });
}

#[test]
fn only_simple_is_served() {
    assert_eq!(process_pdf(MarkdownConversionMethod::Simple), ConversionRoute::Extract);
    assert_eq!(
        process_pdf(MarkdownConversionMethod::Marker),
        ConversionRoute::Unavailable("Marker PDF Processing Not Implemented".to_string())
    );
    assert_eq!(
        process_pdf(MarkdownConversionMethod::OlmOcr),
        ConversionRoute::Unavailable("OlmOcr PDF Processing Not Implemented".to_string())
    );
}
