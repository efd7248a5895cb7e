//! A uniform interface for storing and retrieving named blobs, backed either
//! by a local directory tree or by a bucket of a remote object store.
//!
//! The crate performs no input or output itself. Every operation of
//! [`FileStorageClient`] is a small state machine: it names the next
//! [`Action`] that a driver has to carry out, and [`Job::advance`] turns the
//! driver's [`Event`] into the following action or into the final result.

pub mod error;
pub mod outside;
pub mod path;
pub mod job;
pub mod local_storage;
pub mod google_cloud_storage;
pub mod client;
pub mod stream;
pub mod store;
pub mod laws;

pub use client::FileStorageClient;
pub use error::StorageError;
pub use job::{Action, Event, Job, Outcome};
pub use stream::{ByteStream, Chunk, Item};
