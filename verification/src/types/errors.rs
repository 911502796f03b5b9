//! Failures of the three storage capabilities.
//!
//! A failure of a backend is carried as the text of the backend's own error,
//! so that every value here is plain data.

use vstd::prelude::*;
use vstd::string::*;

verus! {

/// Failure of a blob-storage operation.
#[derive(Debug, PartialEq, Eq)]
pub enum StoreError {
    /// The object store or the transport to it failed; holds its report.
    S3(String),
    /// A stored value could not be encoded or decoded; holds the report.
    Serde(String),
    /// The local file system refused the operation.
    LocalFile,
    /// The location is of the wrong kind for this backend, or its address
    /// is malformed.
    InvalidLocation,
}

/// Failure of a task-queue operation.
#[derive(Debug, PartialEq, Eq)]
pub enum QueueError {
    /// There is nothing to process.
    QueueEmpty,
    /// The queue's backend failed; holds its report.
    Redis(String),
    /// A message could not be encoded or decoded; holds the report.
    Serde(String),
}

/// Failure of a status-store operation.
#[derive(Debug, PartialEq, Eq)]
pub enum DocStatusError {
    /// No record was ever written under the requested identifier.
    DocidNotFound,
    /// The store's backend failed; holds its report.
    Redis(String),
    /// A record could not be encoded or decoded; holds the report.
    Serde(String),
}

impl StoreError {
    /// The text shown for this failure.
    pub open spec fn message(self) -> Seq<char> {
        match self {
            StoreError::S3(report) => "S3 error: "@ + report@,
            StoreError::Serde(report) => "Serialization error: "@ + report@,
            StoreError::LocalFile => "Error in Local File System"@,
            StoreError::InvalidLocation => "Invalid file location for File"@,
        }
    }

    /// Renders the failure as text.
    pub fn to_string(&self) -> (text: String)
        ensures
            text@ == self.message(),
    {
        match self {
            StoreError::S3(report) => String::from_str("S3 error: ").concat(report.as_str()),
            StoreError::Serde(report) => String::from_str("Serialization error: ").concat(
                report.as_str(),
            ),
            StoreError::LocalFile => String::from_str("Error in Local File System"),
            StoreError::InvalidLocation => String::from_str("Invalid file location for File"),
        }
    }
}

impl QueueError {
    /// The text shown for this failure.
    pub open spec fn message(self) -> Seq<char> {
        match self {
            QueueError::QueueEmpty => "Processing Queue is Empty"@,
            QueueError::Redis(report) => "Redis error: "@ + report@,
            QueueError::Serde(report) => "Serialization error: "@ + report@,
        }
    }

    /// Renders the failure as text.
    pub fn to_string(&self) -> (text: String)
        ensures
            text@ == self.message(),
    {
        match self {
            QueueError::QueueEmpty => String::from_str("Processing Queue is Empty"),
            QueueError::Redis(report) => String::from_str("Redis error: ").concat(report.as_str()),
            QueueError::Serde(report) => String::from_str("Serialization error: ").concat(
                report.as_str(),
            ),
        }
    }
}

impl DocStatusError {
    /// The text shown for this failure.
    pub open spec fn message(self) -> Seq<char> {
        match self {
            DocStatusError::DocidNotFound => "Doc ID Not Found"@,
            DocStatusError::Redis(report) => "Redis error: "@ + report@,
            DocStatusError::Serde(report) => "Serialization error: "@ + report@,
        }
    }

    /// Renders the failure as text.
    pub fn to_string(&self) -> (text: String)
        ensures
            text@ == self.message(),
    {
        match self {
            DocStatusError::DocidNotFound => String::from_str("Doc ID Not Found"),
            DocStatusError::Redis(report) => String::from_str("Redis error: ").concat(
                report.as_str(),
            ),
            DocStatusError::Serde(report) => String::from_str("Serialization error: ").concat(
                report.as_str(),
            ),
        }
    }
}

} // verus!
