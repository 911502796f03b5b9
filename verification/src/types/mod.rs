//! The task and location data model.

pub mod errors;
pub mod location;
pub mod stage;
pub mod status;

pub use errors::{DocStatusError, QueueError, StoreError};
pub use location::{FileLocation, LocalPath, S3Location};
pub use stage::{MarkdownConversionMethod, ProcessingStage};
pub use status::{
    make_request_leaf, make_request_url, DocStatus, DocStatusResponse, TaskID, TaskMessage,
};
