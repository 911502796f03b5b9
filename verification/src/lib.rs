//! Asynchronous document-conversion pipeline: the task and location model,
//! the in-memory storage composite, and the worker's state machine.

pub mod api;
pub mod logic;
pub mod processing;
pub mod text;
pub mod types;
