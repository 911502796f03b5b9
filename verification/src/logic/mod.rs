//! The storage composite and the operations the gateway and the worker
//! perform on it.

pub mod laws;
pub mod local_store;
pub mod served_backend;
pub mod store;

pub use local_store::{
    DownloadPlan, FetchOutcome, FetchRequest, InMemoryStatusStore, InMemoryTaskQueue,
    LocalFileStore, S3ConfigParams, StatusStoreImplementation, TaskQueueImplementation,
};
pub use served_backend::{S3FileStore, S3RedisConfig};
pub use store::{
    get_file_task_from_queue, get_task_data_from_id, ingest_file_to_queue, update_task_data,
    LocalStore,
};
