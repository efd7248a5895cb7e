//! The two kinds of failure that an operation can end in.

use vstd::prelude::*;
use vstd::std_specs::convert::FromSpecImpl;

verus! {

/// Why an operation failed. The cause is kept as the backend reported it and
/// is never inspected.
#[allow(inconsistent_fields)]
#[derive(Debug)]
pub enum StorageError {
    /// An operation on the local file system failed.
    IOError { cause: std::io::Error },
    /// A request to the remote object store failed.
    CloudStorageError { cause: cloud_storage::Error },
}

impl From<std::io::Error> for StorageError {
    fn from(cause: std::io::Error) -> (ret: Self) {
        StorageError::IOError { cause }
    }
}

impl FromSpecImpl<std::io::Error> for StorageError {
    open spec fn obeys_from_spec() -> bool {
        true
    }

    open spec fn from_spec(cause: std::io::Error) -> Self {
        StorageError::IOError { cause }
    }
}

impl From<cloud_storage::Error> for StorageError {
    fn from(cause: cloud_storage::Error) -> (ret: Self) {
        StorageError::CloudStorageError { cause }
    }
}

impl FromSpecImpl<cloud_storage::Error> for StorageError {
    open spec fn obeys_from_spec() -> bool {
        true
    }

    open spec fn from_spec(cause: cloud_storage::Error) -> Self {
        StorageError::CloudStorageError { cause }
    }
}

} // verus!
