//! The worker's decisions, as a state machine.
//!
//! A worker takes a task off the queue and drives it to a terminal stage.
//! Writing a record, fetching a document and converting it are done by
//! whoever runs the worker; this module decides what is to be done next
//! and what each answer means. The runner performs the action it is
//! handed, reports the answer as an event, and goes on until the action is
//! `Done`.

use crate::logic::store::{get_file_task_from_queue, LocalStore};
use crate::text::{decimal, decimal_string};
use crate::types::errors::{DocStatusError, StoreError};
use crate::types::location::{FileLocation, FileLocationView, LocalPath};
use crate::types::stage::{MarkdownConversionMethod, ProcessingStage};
use crate::types::status::{text_view, DocStatus, DocStatusView};
use vstd::prelude::*;
use vstd::string::*;

verus! {

/// Seconds a worker rests when it finds the queue empty.
pub const IDLE_BACKOFF_SECONDS: u64 = 2;

/// Where the worker stands with the task it holds.
#[derive(Debug, PartialEq, Eq)]
pub enum WorkerState {
    /// The record was handed out to be written as `Processing`.
    Claiming(DocStatus),
    /// The document is being brought to local disk.
    Downloading(DocStatus),
    /// The document is being converted.
    Converting(DocStatus),
    /// The final record was handed out to be written; `failure` is what
    /// the task failed with, if it failed.
    Recording { failure: Option<String> },
    /// Nothing is left to do for the task.
    Finished,
}

/// What the runner is to do next.
#[derive(Debug, PartialEq, Eq)]
pub enum WorkerAction {
    /// Write the record to the status store.
    Persist(DocStatus),
    /// Bring the document at this location to local disk.
    Download(FileLocation),
    /// Convert the document at `local_path` by `method`.
    Convert { local_path: LocalPath, method: MarkdownConversionMethod },
    /// The task is over, with this result.
    Done(Result<(), String>),
}

/// The runner's answer to an action.
#[derive(Debug, PartialEq, Eq)]
pub enum WorkerEvent {
    /// Answer to `Persist`.
    Persisted(Result<(), DocStatusError>),
    /// Answer to `Download`: the local path of the document.
    Downloaded(Result<LocalPath, StoreError>),
    /// Answer to `Convert`: the markdown, or the converter's report.
    Converted(Result<String, String>),
}

/// Mathematical content of a [`WorkerState`].
pub enum WorkerStateView {
    Claiming(DocStatusView),
    Downloading(DocStatusView),
    Converting(DocStatusView),
    Recording { failure: Option<Seq<char>> },
    Finished,
}

/// Mathematical content of a [`WorkerAction`]; a result is held as the
/// text of its failure, if it is one.
pub enum WorkerActionView {
    Persist(DocStatusView),
    Download(FileLocationView),
    Convert { local_path: Seq<char>, method: MarkdownConversionMethod },
    Done { failure: Option<Seq<char>> },
}

/// Mathematical content of a [`WorkerEvent`]; a failure is held as its
/// text.
pub enum WorkerEventView {
    Persisted { failure: Option<Seq<char>> },
    Downloaded(Result<Seq<char>, Seq<char>>),
    Converted(Result<Seq<char>, Seq<char>>),
}

impl View for WorkerState {
    type V = WorkerStateView;

    open spec fn view(&self) -> WorkerStateView {
        match self {
            WorkerState::Claiming(status) => WorkerStateView::Claiming(status@),
            WorkerState::Downloading(status) => WorkerStateView::Downloading(status@),
            WorkerState::Converting(status) => WorkerStateView::Converting(status@),
            WorkerState::Recording { failure } => WorkerStateView::Recording {
                failure: text_view(*failure),
            },
            WorkerState::Finished => WorkerStateView::Finished,
        }
    }
}

impl View for WorkerAction {
    type V = WorkerActionView;

    open spec fn view(&self) -> WorkerActionView {
        match self {
            WorkerAction::Persist(status) => WorkerActionView::Persist(status@),
            WorkerAction::Download(location) => WorkerActionView::Download(location@),
            WorkerAction::Convert { local_path, method } => WorkerActionView::Convert {
                local_path: local_path@,
                method: *method,
            },
            WorkerAction::Done(Ok(_)) => WorkerActionView::Done { failure: None },
            WorkerAction::Done(Err(report)) => WorkerActionView::Done { failure: Some(report@) },
        }
    }
}

impl View for WorkerEvent {
    type V = WorkerEventView;

    open spec fn view(&self) -> WorkerEventView {
        match self {
            WorkerEvent::Persisted(Ok(_)) => WorkerEventView::Persisted { failure: None },
            WorkerEvent::Persisted(Err(failure)) => WorkerEventView::Persisted {
                failure: Some(failure.message()),
            },
            WorkerEvent::Downloaded(Ok(path)) => WorkerEventView::Downloaded(Ok(path@)),
            WorkerEvent::Downloaded(Err(failure)) => WorkerEventView::Downloaded(
                Err(failure.message()),
            ),
            WorkerEvent::Converted(Ok(markdown)) => WorkerEventView::Converted(Ok(markdown@)),
            WorkerEvent::Converted(Err(report)) => WorkerEventView::Converted(Err(report@)),
        }
    }
}

impl DocStatusView {
    /// The record, picked up by a worker.
    pub open spec fn claimed(self) -> DocStatusView {
        DocStatusView { status: ProcessingStage::Processing, ..self }
    }

    /// The record, ended with the conversion's result.
    pub open spec fn completed_with(self, markdown: Seq<char>) -> DocStatusView {
        DocStatusView { markdown: Some(markdown), status: ProcessingStage::Completed, ..self }
    }

    /// The record, ended with the failure `report`.
    pub open spec fn errored_with(self, report: Seq<char>) -> DocStatusView {
        DocStatusView {
            error: Some("Encountered error: "@ + report),
            status: ProcessingStage::Errored,
            ..self
        }
    }
}

/// Result of a task whose record could not be written as `Processing`.
pub open spec fn claim_failure(id: u64, report: Seq<char>) -> Seq<char> {
    "Failed to set status to Processing for task "@ + decimal(id as nat) + ": "@ + report
}

/// Failure of a task whose conversion failed with `report`.
pub open spec fn conversion_failure(report: Seq<char>) -> Seq<char> {
    "Encountered error processing pdf: "@ + report
}

/// Result of a completed task whose final record could not be written.
pub open spec fn record_failure(report: Seq<char>) -> Seq<char> {
    "Encountered error pushing final data to db: "@ + report
}

/// Result of a run that was handed an event that answers no action it
/// asked for.
pub open spec fn stray_event() -> Seq<char> {
    "Worker was given an answer to a request it did not make"@
}

/// Result of a run that was handed the record of a task that has already
/// ended.
pub open spec fn already_ended(id: u64) -> Seq<char> {
    "Task "@ + decimal(id as nat) + " has already ended"@
}

/// How a worker begins with the record of a task it took off the queue.
///
/// A task that has not ended is claimed, and the claimed record is handed
/// out to be written. A task that has ended, whose message came a second
/// time, is left as it is: nothing is written, and the run is over.
pub open spec fn begin(status: DocStatusView) -> (WorkerStateView, WorkerActionView) {
    if status.status.spec_is_finished() {
        (
            WorkerStateView::Finished,
            WorkerActionView::Done { failure: Some(already_ended(status.request_id)) },
        )
    } else {
        (WorkerStateView::Claiming(status.claimed()), WorkerActionView::Persist(status.claimed()))
    }
}

/// The worker's next state and action, given its state and the answer to
/// its last action.
///
/// - Claimed and written: fetch the document. Claimed and not written: the
///   task is abandoned, its record untouched.
/// - Fetched: convert. Not fetched: the task ends `Errored`.
/// - Converted: the task ends `Completed` with the markdown. Not
///   converted: the task ends `Errored`.
/// - After the final record was handed out: a failed task reports its
///   failure whether or not the record was written; a completed task
///   reports a record that could not be written.
/// - An event that answers no pending action ends the run.
pub open spec fn step(state: WorkerStateView, event: WorkerEventView) -> (
    WorkerStateView,
    WorkerActionView,
) {
    match (state, event) {
        (WorkerStateView::Claiming(status), WorkerEventView::Persisted { failure: None }) => (
            WorkerStateView::Downloading(status),
            WorkerActionView::Download(status.file_location),
        ),
        (
            WorkerStateView::Claiming(status),
            WorkerEventView::Persisted { failure: Some(report) },
        ) => (
            WorkerStateView::Finished,
            WorkerActionView::Done { failure: Some(claim_failure(status.request_id, report)) },
        ),
        (WorkerStateView::Downloading(status), WorkerEventView::Downloaded(Ok(path))) => (
            WorkerStateView::Converting(status),
            WorkerActionView::Convert { local_path: path, method: status.conversion_method },
        ),
        (WorkerStateView::Downloading(status), WorkerEventView::Downloaded(Err(report))) => (
            WorkerStateView::Recording { failure: Some(report) },
            WorkerActionView::Persist(status.errored_with(report)),
        ),
        (WorkerStateView::Converting(status), WorkerEventView::Converted(Ok(markdown))) => (
            WorkerStateView::Recording { failure: None },
            WorkerActionView::Persist(status.completed_with(markdown)),
        ),
        (WorkerStateView::Converting(status), WorkerEventView::Converted(Err(report))) => (
            WorkerStateView::Recording { failure: Some(conversion_failure(report)) },
            WorkerActionView::Persist(status.errored_with(conversion_failure(report))),
        ),
        (
            WorkerStateView::Recording { failure: Some(report) },
            WorkerEventView::Persisted { failure: _ },
        ) => (WorkerStateView::Finished, WorkerActionView::Done { failure: Some(report) }),
        (
            WorkerStateView::Recording { failure: None },
            WorkerEventView::Persisted { failure: None },
        ) => (WorkerStateView::Finished, WorkerActionView::Done { failure: None }),
        (
            WorkerStateView::Recording { failure: None },
            WorkerEventView::Persisted { failure: Some(report) },
        ) => (
            WorkerStateView::Finished,
            WorkerActionView::Done { failure: Some(record_failure(report)) },
        ),
        _ => (WorkerStateView::Finished, WorkerActionView::Done { failure: Some(stray_event()) }),
    }
}

/// The record, ended with the failure `report`.
fn errored(status: DocStatus, report: &str) -> (ended: DocStatus)
    ensures
        ended@ == status@.errored_with(report@),
{
    let mut ended = status;
    ended.error = Some(String::from_str("Encountered error: ").concat(report));
    ended.status = ProcessingStage::Errored;
    ended
}

/// The end of a run that was handed an event it did not ask for.
fn stray() -> (end: (WorkerState, WorkerAction))
    ensures
        end.0@ == WorkerStateView::Finished,
        end.1@ == (WorkerActionView::Done { failure: Some(stray_event()) }),
{
    (
        WorkerState::Finished,
        WorkerAction::Done(
            Err(String::from_str("Worker was given an answer to a request it did not make")),
        ),
    )
}

/// Begins the processing of a task whose record is `status`. A task that
/// has not ended is claimed, and the first action is to write the claimed
/// record; a task that has ended is not touched, and the run is over at
/// once.
pub fn process_pdf_from_status(status: DocStatus) -> (run: (WorkerState, WorkerAction))
    ensures
        (run.0@, run.1@) == begin(status@),
{
    if status.status.is_finished() {
        let number = decimal_string(status.request_id);
        let text = String::from_str("Task ").concat(number.as_str()).concat(" has already ended");
        (WorkerState::Finished, WorkerAction::Done(Err(text)))
    } else {
        let mut claimed = status;
        claimed.status = ProcessingStage::Processing;
        let written = claimed.clone();
        (WorkerState::Claiming(claimed), WorkerAction::Persist(written))
    }
}

/// Takes the answer to the last action and decides what follows.
pub fn worker_step(state: WorkerState, event: WorkerEvent) -> (next: (WorkerState, WorkerAction))
    ensures
        (next.0@, next.1@) == step(state@, event@),
{
    match state {
        WorkerState::Claiming(status) => match event {
            WorkerEvent::Persisted(Ok(_)) => {
                let location = status.file_location.clone();
                (WorkerState::Downloading(status), WorkerAction::Download(location))
            },
            WorkerEvent::Persisted(Err(failure)) => {
                let number = decimal_string(status.request_id);
                let report = failure.to_string();
                let text = String::from_str("Failed to set status to Processing for task ").concat(
                    number.as_str(),
                ).concat(": ").concat(report.as_str());
                (WorkerState::Finished, WorkerAction::Done(Err(text)))
            },
            _ => stray(),
        },
        WorkerState::Downloading(status) => match event {
            WorkerEvent::Downloaded(Ok(local_path)) => {
                let method = status.conversion_method;
                (WorkerState::Converting(status), WorkerAction::Convert { local_path, method })
            },
            WorkerEvent::Downloaded(Err(failure)) => {
                let report = failure.to_string();
                let ended = errored(status, report.as_str());
                (WorkerState::Recording { failure: Some(report) }, WorkerAction::Persist(ended))
            },
            _ => stray(),
        },
        WorkerState::Converting(status) => match event {
            WorkerEvent::Converted(Ok(markdown)) => {
                let mut ended = status;
                ended.markdown = Some(markdown);
                ended.status = ProcessingStage::Completed;
                (WorkerState::Recording { failure: None }, WorkerAction::Persist(ended))
            },
            WorkerEvent::Converted(Err(converter_report)) => {
                let report = String::from_str("Encountered error processing pdf: ").concat(
                    converter_report.as_str(),
                );
                let ended = errored(status, report.as_str());
                (WorkerState::Recording { failure: Some(report) }, WorkerAction::Persist(ended))
            },
            _ => stray(),
        },
        WorkerState::Recording { failure } => match event {
            WorkerEvent::Persisted(answer) => match failure {
                Some(report) => (WorkerState::Finished, WorkerAction::Done(Err(report))),
                None => match answer {
                    Ok(_) => (WorkerState::Finished, WorkerAction::Done(Ok(()))),
                    Err(unwritten) => {
                        let report = unwritten.to_string();
                        let text = String::from_str(
                            "Encountered error pushing final data to db: ",
                        ).concat(report.as_str());
                        (WorkerState::Finished, WorkerAction::Done(Err(text)))
                    },
                },
            },
            _ => stray(),
        },
        WorkerState::Finished => stray(),
    }
}

/// What a worker does when it comes to the queue.
#[derive(Debug, PartialEq, Eq)]
pub enum WorkerPoll {
    /// A task was taken off the queue and claimed.
    Task { state: WorkerState, action: WorkerAction },
    /// No task waits: rest before coming back.
    Idle { sleep_seconds: u64 },
}

/// Comes to the queue once: takes the oldest message off it, if one
/// waits, and begins the processing of its task. The worker rests for the
/// backoff interval when no message waits, and also when the message it
/// took has no record: such a message is dropped.
pub fn worker_poll(store: &mut LocalStore) -> (poll: WorkerPoll)
    ensures
        old(store).wf() ==> final(store).wf(),
        final(store).records() == old(store).records(),
        final(store).files() == old(store).files(),
        final(store).pending() == if old(store).pending().len() > 0 {
            old(store).pending().skip(1)
        } else {
            old(store).pending()
        },
        match poll {
            WorkerPoll::Task { state, action } => {
                &&& old(store).pending().len() > 0
                &&& old(store).records().contains_key(old(store).pending()[0].id)
                &&& (state@, action@) == begin(
                    old(store).records()[old(store).pending()[0].id],
                )
            },
            WorkerPoll::Idle { sleep_seconds } => {
                &&& sleep_seconds == IDLE_BACKOFF_SECONDS
                &&& old(store).pending().len() == 0 || !old(store).records().contains_key(
                    old(store).pending()[0].id,
                )
            },
        },
{
    match get_file_task_from_queue(store) {
        Some(status) => {
            let (state, action) = process_pdf_from_status(status);
            WorkerPoll::Task { state, action }
        },
        None => WorkerPoll::Idle { sleep_seconds: IDLE_BACKOFF_SECONDS },
    }
}

impl WorkerStateView {
    /// The record of the task as the worker last handed it out, while the
    /// task is under way.
    pub open spec fn record(self) -> Option<DocStatusView> {
        match self {
            WorkerStateView::Claiming(status)
            | WorkerStateView::Downloading(status)
            | WorkerStateView::Converting(status) => Some(status),
            _ => None,
        }
    }

    /// A state that a run can be in: the record of a task under way is
    /// `Processing`.
    pub open spec fn well_formed(self) -> bool {
        self.record() matches Some(status) ==> status.status == ProcessingStage::Processing
    }

    /// The record of a task under way holds no result yet.
    pub open spec fn holds_no_result(self) -> bool {
        self.record() matches Some(status) ==> status.markdown is None && status.error is None
    }
}

/// The record that an action hands out to be written, if it hands one out.
pub open spec fn written_by(action: WorkerActionView) -> Seq<DocStatusView> {
    match action {
        WorkerActionView::Persist(written) => seq![written],
        _ => Seq::<DocStatusView>::empty(),
    }
}

/// A run never begins by moving a task backward. A task that has ended is
/// not written at all. Any other task is written once, as `Processing`,
/// with nothing else changed, and the run is then in a state a run can be
/// in.
pub proof fn lemma_begin_moves_forward(status: DocStatusView)
    ensures
        begin(status).0.well_formed(),
        status.status.spec_is_finished() ==> written_by(begin(status).1).len() == 0,
        !status.status.spec_is_finished() ==> begin(status).1 == WorkerActionView::Persist(
            status.claimed(),
        ),
        forall|i: int|
            0 <= i < written_by(begin(status).1).len() ==> status.status.may_become(
                (#[trigger] written_by(begin(status).1)[i]).status,
            ),
        status.exclusive() ==> begin(status).0.holds_no_result(),
        status.exclusive() ==> forall|i: int|
            0 <= i < written_by(begin(status).1).len() ==> (#[trigger] written_by(
                begin(status).1,
            )[i]).exclusive(),
{
}

/// Every step of a run leaves it in a state a run can be in.
pub proof fn lemma_step_keeps_well_formed(state: WorkerStateView, event: WorkerEventView)
    requires
        state.well_formed(),
    ensures
        step(state, event).0.well_formed(),
        state.holds_no_result() ==> step(state, event).0.holds_no_result(),
{
}

/// A task never moves backward: whatever record a step hands out to be
/// written is the record of the same task, document and method as before,
/// in the terminal stage `Completed` or `Errored`, which `Processing` may
/// become.
pub proof fn lemma_step_moves_forward(state: WorkerStateView, event: WorkerEventView)
    requires
        state.well_formed(),
    ensures
        step(state, event).1 matches WorkerActionView::Persist(written) ==> {
            &&& state.record() matches Some(before)
            &&& before.status.may_become(written.status)
            &&& written.status.spec_is_finished()
            &&& written.request_id == before.request_id
            &&& written.file_location == before.file_location
            &&& written.conversion_method == before.conversion_method
        },
{
}

/// A result is present only in the stage it belongs to: whatever record a
/// step hands out to be written for a task that held no result holds
/// markdown exactly when it is `Completed` and an error exactly when it is
/// `Errored`.
pub proof fn lemma_step_writes_exclusive_records(state: WorkerStateView, event: WorkerEventView)
    requires
        state.well_formed(),
        state.holds_no_result(),
    ensures
        step(state, event).1 matches WorkerActionView::Persist(written) ==> {
            &&& written.exclusive()
            &&& written.markdown is Some <==> written.status == ProcessingStage::Completed
            &&& written.error is Some <==> written.status == ProcessingStage::Errored
        },
{
}

/// The records that a run in `state` hands out to be written while it is
/// answered by `events`, one after the other.
pub open spec fn writes_from(state: WorkerStateView, events: Seq<WorkerEventView>) -> Seq<
    DocStatusView,
>
    decreases events.len(),
{
    if events.len() == 0 {
        Seq::<DocStatusView>::empty()
    } else {
        let (next, action) = step(state, events[0]);
        written_by(action) + writes_from(next, events.skip(1))
    }
}

/// Every record that a task has had, in order: the record as it was when
/// the worker took the task, then what the run hands out to be written,
/// at its beginning and while it is answered by `events`.
pub open spec fn history(status: DocStatusView, events: Seq<WorkerEventView>) -> Seq<
    DocStatusView,
> {
    seq![status] + written_by(begin(status).1) + writes_from(begin(status).0, events)
}

/// After its beginning a run writes at most one more record, and that one
/// is terminal, is of the same task, and, for a task that held no result,
/// holds the result that belongs to its stage.
proof fn lemma_writes_from(state: WorkerStateView, events: Seq<WorkerEventView>)
    requires
        state.well_formed(),
    ensures
        writes_from(state, events).len() <= 1,
        state.record() is None ==> writes_from(state, events).len() == 0,
        writes_from(state, events).len() == 1 ==> {
            let written = writes_from(state, events)[0];
            &&& written.status.spec_is_finished()
            &&& written.request_id == state.record()->Some_0.request_id
            &&& state.holds_no_result() ==> written.exclusive()
        },
    decreases events.len(),
{
    if events.len() > 0 {
        let (next, action) = step(state, events[0]);
        lemma_writes_from(next, events.skip(1));
    }
}

/// The stages of a task only follow `Waiting`, `Processing`, then
/// `Completed` or `Errored`. Whatever the record of a task is when a
/// worker takes it, and however the run is answered, the records the task
/// has had never move backward and are all of the same task. A task that
/// had ended is written no more; any other is written as `Processing`, and
/// after that at most once, in a terminal stage.
pub proof fn lemma_history_follows_lifecycle(
    status: DocStatusView,
    events: Seq<WorkerEventView>,
)
    ensures
        status.status.spec_is_finished() ==> history(status, events) == seq![status],
        !status.status.spec_is_finished() ==> {
            &&& 2 <= history(status, events).len() <= 3
            &&& history(status, events)[1].status == ProcessingStage::Processing
            &&& history(status, events).len() == 3 ==> history(
                status,
                events,
            )[2].status.spec_is_finished()
        },
        forall|i: int, j: int|
            0 <= i <= j < history(status, events).len() ==> history(
                status,
                events,
            )[i].status.may_become(history(status, events)[j].status),
        forall|i: int|
            0 <= i < history(status, events).len() ==> (#[trigger] history(
                status,
                events,
            )[i]).request_id == status.request_id,
{
    lemma_writes_from(begin(status).0, events);
    if status.status.spec_is_finished() {
        assert(history(status, events) =~= seq![status]);
    }
}

/// A result is present only in the stage it belongs to. When the record
/// of a task holds markdown only if `Completed` and an error only if
/// `Errored` as a worker takes it, every record the task has after that
/// does so too, however the run is answered.
pub proof fn lemma_history_is_exclusive(status: DocStatusView, events: Seq<WorkerEventView>)
    requires
        status.exclusive(),
    ensures
        forall|i: int|
            0 <= i < history(status, events).len() ==> (#[trigger] history(
                status,
                events,
            )[i]).exclusive(),
{
    lemma_writes_from(begin(status).0, events);
}

} // verus!
