//! The client: one storage target, fixed when the client is made, and the
//! four operations on it.

use vstd::prelude::*;
use crate::google_cloud_storage;
use crate::google_cloud_storage::mime_view;
use crate::job::{Outcome, OutcomeView};
use crate::local_storage;
use crate::path::joined;

verus! {

/// A storage target: a local directory tree, or a bucket of the remote
/// object store together with the directory that whole downloads go to.
#[derive(Debug, Clone)]
pub enum FileStorageClient {
    LocalStorage { directory: String },
    GoogleCloudStorage { bucket_name: String, download_dir: String },
}

/// The mathematical value of a [`FileStorageClient`].
pub enum ClientView {
    LocalStorage { directory: Seq<char> },
    GoogleCloudStorage { bucket_name: Seq<char>, download_dir: Seq<char> },
}

impl View for FileStorageClient {
    type V = ClientView;

    open spec fn view(&self) -> ClientView {
        match *self {
            FileStorageClient::LocalStorage { directory } => ClientView::LocalStorage {
                directory: directory@,
            },
            FileStorageClient::GoogleCloudStorage {
                bucket_name,
                download_dir,
            } => ClientView::GoogleCloudStorage {
                bucket_name: bucket_name@,
                download_dir: download_dir@,
            },
        }
    }
}

/// The first step of `put` on `client`.
pub open spec fn put_spec(
    client: ClientView,
    from: Seq<char>,
    key: Seq<char>,
    mime_type: Option<Seq<char>>,
) -> OutcomeView {
    match client {
        ClientView::LocalStorage { directory } => local_storage::put_spec(from, directory, key),
        ClientView::GoogleCloudStorage {
            bucket_name,
            download_dir,
        } => google_cloud_storage::put_spec(from, bucket_name, key, mime_type),
    }
}

/// The first step of `put_data` on `client`.
pub open spec fn put_data_spec(
    client: ClientView,
    data: Seq<u8>,
    key: Seq<char>,
    mime_type: Option<Seq<char>>,
) -> OutcomeView {
    match client {
        ClientView::LocalStorage { directory } => local_storage::put_data_spec(
            data,
            directory,
            key,
        ),
        ClientView::GoogleCloudStorage {
            bucket_name,
            download_dir,
        } => google_cloud_storage::put_data_spec(data, bucket_name, key, mime_type),
    }
}

/// The first step of `get` on `client`: the local backend answers at once
/// with the path under its root, the remote one asks for a download.
pub open spec fn get_spec(client: ClientView, key: Seq<char>) -> OutcomeView {
    match client {
        ClientView::LocalStorage { directory } => OutcomeView::Located {
            path: joined(directory, key),
        },
        ClientView::GoogleCloudStorage {
            bucket_name,
            download_dir,
        } => google_cloud_storage::get_spec(bucket_name, key, download_dir),
    }
}

/// The first step of `get_data` on `client`.
pub open spec fn get_data_spec(client: ClientView, key: Seq<char>) -> OutcomeView {
    match client {
        ClientView::LocalStorage { directory } => local_storage::get_data_spec(directory, key),
        ClientView::GoogleCloudStorage {
            bucket_name,
            download_dir,
        } => google_cloud_storage::get_data_spec(bucket_name, key),
    }
}

impl FileStorageClient {
    /// A client that keeps its blobs under `directory`.
    pub fn new_local_storage(directory: &str) -> (client: Self)
        ensures
            client@ == (ClientView::LocalStorage { directory: directory@ }),
    {
        FileStorageClient::LocalStorage { directory: directory.to_owned() }
    }

    /// A client that keeps its blobs in the bucket `bucket_name` and puts
    /// whole downloads into `download_dir`.
    pub fn new_google_cloud_storage(bucket_name: &str, download_dir: &str) -> (client: Self)
        ensures
            client@ == (ClientView::GoogleCloudStorage {
                bucket_name: bucket_name@,
                download_dir: download_dir@,
            }),
    {
        FileStorageClient::GoogleCloudStorage {
            bucket_name: bucket_name.to_owned(),
            download_dir: download_dir.to_owned(),
        }
    }

    /// Starts storing the local file `local_filepath` under `filename`.
    /// `mime_type` is sent with a remote upload and plays no part in a local
    /// copy.
    pub fn put(&self, local_filepath: &str, filename: &str, mime_type: Option<&str>) -> (outcome:
        Outcome)
        ensures
            outcome@ == put_spec(self@, local_filepath@, filename@, mime_view(mime_type)),
    {
        match self {
            FileStorageClient::LocalStorage { directory } => local_storage::put(
                local_filepath,
                directory.as_str(),
                filename,
            ),
            FileStorageClient::GoogleCloudStorage {
                bucket_name,
                download_dir: _,
            } => google_cloud_storage::put(local_filepath, bucket_name.as_str(), filename, mime_type),
        }
    }

    /// Starts storing `data` under `filename`.
    pub fn put_data(&self, data: Vec<u8>, filename: &str, mime_type: Option<&str>) -> (outcome:
        Outcome)
        ensures
            outcome@ == put_data_spec(self@, data@, filename@, mime_view(mime_type)),
    {
        match self {
            FileStorageClient::LocalStorage { directory } => local_storage::put_data(
                data,
                directory.as_str(),
                filename,
            ),
            FileStorageClient::GoogleCloudStorage {
                bucket_name,
                download_dir: _,
            } => google_cloud_storage::put_data(data, bucket_name.as_str(), filename, mime_type),
        }
    }

    /// Resolves `filename` to a local path. The local backend computes the
    /// path and asks nothing of the file system; the remote backend asks for
    /// the object to be downloaded first.
    pub fn get(&self, filename: &str) -> (outcome: Outcome)
        ensures
            outcome@ == get_spec(self@, filename@),
    {
        match self {
            FileStorageClient::LocalStorage { directory } => Outcome::Located {
                path: local_storage::get(directory.as_str(), filename),
            },
            FileStorageClient::GoogleCloudStorage {
                bucket_name,
                download_dir,
            } => google_cloud_storage::get(bucket_name.as_str(), filename, download_dir.as_str()),
        }
    }

    /// Starts a streamed read of `filename`.
    pub fn get_data(&self, filename: &str) -> (outcome: Outcome)
        ensures
            outcome@ == get_data_spec(self@, filename@),
    {
        match self {
            FileStorageClient::LocalStorage { directory } => local_storage::get_data(
                directory.as_str(),
                filename,
            ),
            FileStorageClient::GoogleCloudStorage {
                bucket_name,
                download_dir: _,
            } => google_cloud_storage::get_data(bucket_name.as_str(), filename),
        }
    }
}

} // verus!
