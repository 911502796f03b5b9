//! The networked backend: documents in an object store, the queue and the
//! records in a shared key-value service. What is decided before a request
//! goes out is decided here; the requests themselves are the caller's.

use crate::text::{decimal, decimal_string};
use crate::types::errors::StoreError;
use crate::types::location::{FileLocation, FileLocationView};
use crate::types::status::TaskID;
use vstd::prelude::*;
use vstd::string::*;

verus! {

/// Configuration for the object store and key-value service backend.
#[derive(Debug, PartialEq, Eq)]
pub struct S3RedisConfig {
    pub bucket: String,
    pub region: String,
    pub redis_url: String,
}

impl Clone for S3RedisConfig {
    fn clone(&self) -> (copy: Self)
        ensures
            copy == *self,
    {
        S3RedisConfig {
            bucket: self.bucket.clone(),
            region: self.region.clone(),
            redis_url: self.redis_url.clone(),
        }
    }
}

/// Blob storage of the networked backend: every document is an object of
/// one bucket.
#[derive(Debug, PartialEq, Eq)]
pub struct S3FileStore {
    pub bucket: String,
}

/// One object of the store.
#[derive(Debug, PartialEq, Eq)]
pub struct ObjectAddress {
    pub bucket: String,
    pub key: String,
}

impl S3FileStore {
    /// The blob storage that `config` describes.
    pub fn new(config: &S3RedisConfig) -> (store: Self)
        ensures
            store.bucket == config.bucket,
    {
        S3FileStore { bucket: config.bucket.clone() }
    }

    /// The object that an upload to, a download from or a deletion of
    /// `target` is about: the object of the store's bucket under the
    /// location's key. A local path is no object of this store and is
    /// `InvalidLocation`.
    pub fn object_for(&self, target: &FileLocation) -> (object: Result<ObjectAddress, StoreError>)
        ensures
            match target@ {
                FileLocationView::S3Location(location) => {
                    &&& object matches Ok(address)
                    &&& address.bucket == self.bucket
                    &&& address.key@ == location.key
                },
                FileLocationView::LocalPath(_) => object == Err::<ObjectAddress, StoreError>(
                    StoreError::InvalidLocation,
                ),
            },
    {
        match target {
            FileLocation::S3Location(location) => Ok(
                ObjectAddress { bucket: self.bucket.clone(), key: location.key.clone() },
            ),
            FileLocation::LocalPath(_) => Err(StoreError::InvalidLocation),
        }
    }
}

/// Key of the list that holds the task queue.
pub fn task_queue_key() -> (key: String)
    ensures
        key@ == "task_queue"@,
{
    String::from_str("task_queue")
}

/// Key under which what is known of task `id` is kept: `metadata:`
/// followed by the identifier in decimal notation.
pub fn metadata_key(id: TaskID) -> (key: String)
    ensures
        key@ == "metadata:"@ + decimal(id as nat),
{
    String::from_str("metadata:").concat(decimal_string(id).as_str())
}

} // verus!
