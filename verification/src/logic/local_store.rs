//! The single-process backend: documents on local disk, the task queue and
//! the status store in memory.

use crate::types::errors::{DocStatusError, QueueError, StoreError};
use crate::types::location::{FileLocation, FileLocationView, LocalPath};
use crate::types::status::{DocStatus, DocStatusView, TaskID, TaskMessage, TaskMessageView};
use std::collections::HashMap;
use std::collections::VecDeque;
use vstd::prelude::*;
use vstd::string::*;

verus! {

broadcast use vstd::std_specs::hash::group_hash_axioms;

/// How the object store is reached and which credentials are presented.
#[derive(Debug, PartialEq, Eq)]
pub struct S3ConfigParams {
    pub endpoint: String,
    pub region: String,
    pub default_bucket: String,
    pub access_key: String,
    pub secret_key: String,
}

impl Clone for S3ConfigParams {
    fn clone(&self) -> (copy: Self)
        ensures
            copy == *self,
    {
        S3ConfigParams {
            endpoint: self.endpoint.clone(),
            region: self.region.clone(),
            default_bucket: self.default_bucket.clone(),
            access_key: self.access_key.clone(),
            secret_key: self.secret_key.clone(),
        }
    }
}

/// The configured text, or `fallback` where nothing was configured.
fn setting_or(configured: Option<String>, fallback: &str) -> (value: String)
    ensures
        value@ == match configured {
            Some(text) => text@,
            None => fallback@,
        },
{
    match configured {
        Some(text) => text,
        None => String::from_str(fallback),
    }
}

impl S3ConfigParams {
    /// The parameters in force when `endpoint`, `region` and
    /// `default_bucket` are what was configured, if anything was: a setting
    /// that is absent takes its documented default.
    pub fn from_settings(
        endpoint: Option<String>,
        region: Option<String>,
        default_bucket: Option<String>,
        access_key: String,
        secret_key: String,
    ) -> (config: Self)
        ensures
            config.endpoint@ == match endpoint {
                Some(text) => text@,
                None => "https://sfo3.digitaloceanspaces.com"@,
            },
            config.region@ == match region {
                Some(text) => text@,
                None => "sfo3"@,
            },
            config.default_bucket@ == match default_bucket {
                Some(text) => text@,
                None => "crimsondocs"@,
            },
            config.access_key == access_key,
            config.secret_key == secret_key,
    {
        S3ConfigParams {
            endpoint: setting_or(endpoint, "https://sfo3.digitaloceanspaces.com"),
            region: setting_or(region, "sfo3"),
            default_bucket: setting_or(default_bucket, "crimsondocs"),
            access_key,
            secret_key,
        }
    }
}

/// In-memory FIFO task queue.
#[derive(Debug)]
pub struct InMemoryTaskQueue {
    queue: VecDeque<TaskMessage>,
}

/// FIFO queue of task messages.
pub trait TaskQueueImplementation {
    /// The messages that wait, oldest first.
    spec fn pending(&self) -> Seq<TaskMessageView>;

    /// Appends `task` behind every message that waits.
    fn enqueue(&mut self, task: TaskMessage) -> (done: Result<(), QueueError>)
        ensures
            done is Ok ==> final(self).pending() == old(self).pending().push(task@),
            done is Err ==> final(self).pending() == old(self).pending(),
    ;

    /// Takes the oldest message off the queue. An empty queue yields
    /// `None`, which is no failure.
    fn dequeue(&mut self) -> (next: Result<Option<TaskMessage>, QueueError>)
        ensures
            match next {
                Ok(Some(task)) => {
                    &&& old(self).pending().len() > 0
                    &&& task@ == old(self).pending()[0]
                    &&& final(self).pending() == old(self).pending().skip(1)
                },
                Ok(None) => {
                    &&& old(self).pending().len() == 0
                    &&& final(self).pending() == old(self).pending()
                },
                Err(_) => final(self).pending() == old(self).pending(),
            },
    ;
}

impl InMemoryTaskQueue {
    /// Create a new empty InMemoryTaskQueue.
    pub fn new() -> (queue: Self)
        ensures
            queue.pending() == Seq::<TaskMessageView>::empty(),
    {
        let queue = InMemoryTaskQueue { queue: VecDeque::new() };
        assert(queue.pending() =~= Seq::<TaskMessageView>::empty());
        queue
    }
}

impl TaskQueueImplementation for InMemoryTaskQueue {
    closed spec fn pending(&self) -> Seq<TaskMessageView> {
        self.queue@.map_values(|task: TaskMessage| task@)
    }

    fn enqueue(&mut self, task: TaskMessage) -> (done: Result<(), QueueError>)
        ensures
            done is Ok,
    {
        let ghost sent = task@;
        self.queue.push_back(task);
        assert(self.pending() =~= old(self).pending().push(sent));
        Ok(())
    }

    fn dequeue(&mut self) -> (next: Result<Option<TaskMessage>, QueueError>)
        ensures
            next is Ok,
    {
        let taken = self.queue.pop_front();
        proof {
            if taken is Some {
                assert(self.pending() =~= old(self).pending().skip(1));
            }
        }
        Ok(taken)
    }
}

/// In-memory status store.
#[derive(Debug)]
pub struct InMemoryStatusStore {
    store: HashMap<TaskID, DocStatus>,
}

/// Store of task records, keyed by task identifier.
pub trait StatusStoreImplementation {
    /// The record held under each identifier.
    spec fn records(&self) -> Map<TaskID, DocStatusView>;

    /// Writes `status` under its identifier, replacing what was there.
    fn set_doc_status(&mut self, status: DocStatus) -> (done: Result<(), DocStatusError>)
        ensures
            done is Ok ==> final(self).records() == old(self).records().insert(
                status.request_id,
                status@,
            ),
            done is Err ==> final(self).records() == old(self).records(),
    ;

    /// Reads the record held under `id`. An identifier under which nothing
    /// was written is reported as `DocidNotFound`, and as nothing else.
    fn get_doc_status(&self, id: TaskID) -> (found: Result<DocStatus, DocStatusError>)
        ensures
            match found {
                Ok(status) => self.records().contains_key(id) && status@ == self.records()[id],
                Err(failure) => failure is DocidNotFound <==> !self.records().contains_key(id),
            },
    ;
}

impl InMemoryStatusStore {
    /// Create a new empty InMemoryStatusStore.
    pub fn new() -> (store: Self)
        ensures
            store.records() == Map::<TaskID, DocStatusView>::empty(),
    {
        let store = InMemoryStatusStore { store: HashMap::new() };
        assert(store.records() =~= Map::<TaskID, DocStatusView>::empty());
        store
    }
}

impl StatusStoreImplementation for InMemoryStatusStore {
    closed spec fn records(&self) -> Map<TaskID, DocStatusView> {
        self.store@.map_values(|status: DocStatus| status@)
    }

    fn set_doc_status(&mut self, status: DocStatus) -> (done: Result<(), DocStatusError>)
        ensures
            done is Ok,
    {
        let ghost written = status@;
        let id = status.request_id;
        self.store.insert(id, status);
        assert(self.records() =~= old(self).records().insert(id, written));
        Ok(())
    }

    fn get_doc_status(&self, id: TaskID) -> (found: Result<DocStatus, DocStatusError>)
        ensures
            found is Ok <==> self.records().contains_key(id),
    {
        match self.store.get(&id) {
            Some(status) => Ok(status.clone()),
            None => Err(DocStatusError::DocidNotFound),
        }
    }
}

/// The path that `std::path::Path::join` makes of `relative` adjoined to
/// `base`, both taken as texts, on the platform the library is built for.
pub uninterp spec fn joined_path(base: Seq<char>, relative: Seq<char>) -> Seq<char>;

/// Adjoins `relative` to `base` with `std::path::Path::join`.
///
/// Trusted, not proved: the join depends on nothing but the two texts, so
/// its result is the path named `joined_path`. Nothing is claimed of what
/// the joined path looks like.
#[verifier::external_body]
fn join_path(base: &String, relative: &String) -> (joined: String)
    ensures
        joined@ == joined_path(base@, relative@),
{
    std::path::Path::new(base).join(relative).to_string_lossy().into_owned()
}

/// Blob storage of the single-process backend: documents lie on local disk
/// beneath a base directory, and objects of the object store are brought
/// there before they are read.
#[derive(Debug)]
pub struct LocalFileStore {
    base_path: LocalPath,
    s3_config: S3ConfigParams,
}

impl Clone for LocalFileStore {
    fn clone(&self) -> (copy: Self)
        ensures
            copy == *self,
    {
        LocalFileStore { base_path: self.base_path.clone(), s3_config: self.s3_config.clone() }
    }
}

/// What has to be asked of the object store to bring one object to disk.
#[derive(Debug, PartialEq, Eq)]
pub struct FetchRequest {
    pub bucket: String,
    pub key: String,
    pub region: String,
    pub endpoint: String,
    pub access_key: String,
    pub secret_key: String,
    /// Where the object's bytes are to be written.
    pub target: LocalPath,
}

/// Mathematical content of a [`FetchRequest`].
pub struct FetchRequestView {
    pub bucket: Seq<char>,
    pub key: Seq<char>,
    pub region: Seq<char>,
    pub endpoint: Seq<char>,
    pub access_key: Seq<char>,
    pub secret_key: Seq<char>,
    pub target: Seq<char>,
}

impl View for FetchRequest {
    type V = FetchRequestView;

    open spec fn view(&self) -> FetchRequestView {
        FetchRequestView {
            bucket: self.bucket@,
            key: self.key@,
            region: self.region@,
            endpoint: self.endpoint@,
            access_key: self.access_key@,
            secret_key: self.secret_key@,
            target: self.target@,
        }
    }
}

/// How a document becomes readable on local disk.
#[derive(Debug, PartialEq, Eq)]
pub enum DownloadPlan {
    /// It already lies at this path; nothing is to be done.
    Local(LocalPath),
    /// It has to be fetched from the object store first.
    Fetch(FetchRequest),
}

/// Mathematical content of a [`DownloadPlan`].
pub enum DownloadPlanView {
    Local(Seq<char>),
    Fetch(FetchRequestView),
}

impl View for DownloadPlan {
    type V = DownloadPlanView;

    open spec fn view(&self) -> DownloadPlanView {
        match self {
            DownloadPlan::Local(path) => DownloadPlanView::Local(path@),
            DownloadPlan::Fetch(request) => DownloadPlanView::Fetch(request@),
        }
    }
}

/// How an attempt to carry out a [`FetchRequest`] ended.
#[derive(Debug, PartialEq, Eq)]
pub enum FetchOutcome {
    /// The object was written to the request's target.
    Stored,
    /// The object store refused or could not be reached; holds its report.
    RequestFailed(String),
    /// The object was found but its body could not be read to the end;
    /// holds the transport's report.
    BodyUnreadable(String),
    /// The target or its parent directories could not be written.
    WriteFailed,
}

impl LocalFileStore {
    /// Create a new LocalFileStore with the given base directory.
    pub fn new(base_path: LocalPath, s3_config: S3ConfigParams) -> (store: Self)
        ensures
            store.base_path() == base_path,
            store.s3_config() == s3_config,
    {
        LocalFileStore { base_path, s3_config }
    }

    /// A store beneath the configured base directory, or beneath `./data`
    /// where none was configured.
    pub fn from_settings(base_path: Option<String>, s3_config: S3ConfigParams) -> (store: Self)
        ensures
            store.base_path()@ == match base_path {
                Some(path) => path@,
                None => "./data"@,
            },
            store.s3_config() == s3_config,
    {
        LocalFileStore { base_path: setting_or(base_path, "./data"), s3_config }
    }

    /// The directory beneath which fetched objects are written.
    pub closed spec fn base_path(&self) -> LocalPath {
        self.base_path
    }

    /// The object-store parameters the store fetches with.
    pub closed spec fn s3_config(&self) -> S3ConfigParams {
        self.s3_config
    }

    /// What `plan_download` answers for `src` when objects are written to
    /// `target`.
    pub open spec fn download_plan(
        &self,
        src: FileLocationView,
        target: Seq<char>,
    ) -> DownloadPlanView {
        match src {
            FileLocationView::LocalPath(path) => DownloadPlanView::Local(path),
            FileLocationView::S3Location(location) => DownloadPlanView::Fetch(
                FetchRequestView {
                    bucket: location.bucket,
                    key: location.key,
                    region: location.region,
                    endpoint: location.endpoint,
                    access_key: self.s3_config().access_key@,
                    secret_key: self.s3_config().secret_key@,
                    target,
                },
            ),
        }
    }

    /// Storing a local file needs no transfer: the file is addressed by the
    /// path it already has, whatever key was asked for.
    pub fn upload_from_file(&self, local_path: LocalPath, upload_key: String) -> (stored: Result<
        FileLocation,
        StoreError,
    >)
        ensures
            stored == Ok::<FileLocation, StoreError>(FileLocation::LocalPath(local_path)),
    {
        Ok(FileLocation::LocalPath(local_path))
    }

    /// The plan for `src` when an object, if one has to be fetched, is
    /// written to `target`. A local path is its own plan; an object is
    /// fetched from its own bucket, region and endpoint with the store's
    /// credentials.
    pub fn plan_download_to(&self, src: &FileLocation, target: LocalPath) -> (plan: DownloadPlan)
        ensures
            plan@ == self.download_plan(src@, target@),
    {
        match src {
            FileLocation::LocalPath(path) => DownloadPlan::Local(path.clone()),
            FileLocation::S3Location(location) => DownloadPlan::Fetch(
                FetchRequest {
                    bucket: location.bucket.clone(),
                    key: location.key.clone(),
                    region: location.region.clone(),
                    endpoint: location.endpoint.clone(),
                    access_key: self.s3_config.access_key.clone(),
                    secret_key: self.s3_config.secret_key.clone(),
                    target,
                },
            ),
        }
    }

    /// How `src` becomes readable on local disk. An object is written
    /// beneath the base directory, at its key adjoined to that directory.
    pub fn plan_download(&self, src: &FileLocation) -> (plan: DownloadPlan)
        ensures
            plan@ == self.download_plan(
                src@,
                match src@ {
                    FileLocationView::S3Location(location) => joined_path(
                        self.base_path()@,
                        location.key,
                    ),
                    FileLocationView::LocalPath(path) => path,
                },
            ),
    {
        match src {
            FileLocation::LocalPath(path) => self.plan_download_to(src, path.clone()),
            FileLocation::S3Location(location) => {
                let target = join_path(&self.base_path, &location.key);
                self.plan_download_to(src, target)
            },
        }
    }

    /// The path at which the document of a plan is readable once the plan
    /// was carried out, or the failure that `outcome` amounts to. A local
    /// plan needs no fetch and cannot fail. A request that failed and a
    /// body that could not be read are failures of the object store, with
    /// the report they came with; a target that could not be written is a
    /// failure of the local file system.
    pub fn finish_download(plan: DownloadPlan, outcome: FetchOutcome) -> (local: Result<
        LocalPath,
        StoreError,
    >)
        ensures
            match plan {
                DownloadPlan::Local(path) => local == Ok::<LocalPath, StoreError>(path),
                DownloadPlan::Fetch(request) => match outcome {
                    FetchOutcome::Stored => local == Ok::<LocalPath, StoreError>(request.target),
                    FetchOutcome::RequestFailed(report) => local == Err::<LocalPath, StoreError>(
                        StoreError::S3(report),
                    ),
                    FetchOutcome::BodyUnreadable(report) => local == Err::<LocalPath, StoreError>(
                        StoreError::S3(report),
                    ),
                    FetchOutcome::WriteFailed => local == Err::<LocalPath, StoreError>(
                        StoreError::LocalFile,
                    ),
                },
            },
    {
        match plan {
            DownloadPlan::Local(path) => Ok(path),
            DownloadPlan::Fetch(request) => match outcome {
                FetchOutcome::Stored => Ok(request.target),
                FetchOutcome::RequestFailed(report) => Err(StoreError::S3(report)),
                FetchOutcome::BodyUnreadable(report) => Err(StoreError::S3(report)),
                FetchOutcome::WriteFailed => Err(StoreError::LocalFile),
            },
        }
    }

    /// The file to remove for `target`, given the path `adjoined` that its
    /// local path makes with the base directory. Only a local path can be
    /// deleted here; any other location is `InvalidLocation`.
    pub fn plan_delete_at(target: &FileLocation, adjoined: LocalPath) -> (file: Result<
        LocalPath,
        StoreError,
    >)
        ensures
            match target {
                FileLocation::LocalPath(_) => file == Ok::<LocalPath, StoreError>(adjoined),
                FileLocation::S3Location(_) => file == Err::<LocalPath, StoreError>(
                    StoreError::InvalidLocation,
                ),
            },
    {
        match target {
            FileLocation::LocalPath(_) => Ok(adjoined),
            FileLocation::S3Location(_) => Err(StoreError::InvalidLocation),
        }
    }

    /// The file to remove for `target`: its local path adjoined to the base
    /// directory. Only a local path can be deleted here; any other location
    /// is `InvalidLocation`.
    pub fn plan_delete(&self, target: &FileLocation) -> (file: Result<LocalPath, StoreError>)
        ensures
            match target {
                FileLocation::LocalPath(relative) => file is Ok && file->Ok_0@ == joined_path(
                    self.base_path()@,
                    relative@,
                ),
                FileLocation::S3Location(_) => file == Err::<LocalPath, StoreError>(
                    StoreError::InvalidLocation,
                ),
            },
    {
        match target {
            FileLocation::LocalPath(relative) => {
                let adjoined = join_path(&self.base_path, relative);
                LocalFileStore::plan_delete_at(target, adjoined)
            },
            FileLocation::S3Location(_) => Err(StoreError::InvalidLocation),
        }
    }

    /// What a removal amounts to: a file that could not be removed is a
    /// `LocalFile` failure.
    pub fn finish_delete(removed: bool) -> (done: Result<(), StoreError>)
        ensures
            removed ==> done is Ok,
            !removed ==> done == Err::<(), StoreError>(StoreError::LocalFile),
    {
        if removed {
            Ok(())
        } else {
            Err(StoreError::LocalFile)
        }
    }
}

} // verus!
