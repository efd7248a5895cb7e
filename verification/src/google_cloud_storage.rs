//! The backend that keeps blobs as objects of a bucket in Google Cloud
//! Storage.

use vstd::prelude::*;
use crate::job::{Action, ActionView, Job, JobView, Outcome, OutcomeView};
use crate::path::{join, joined};

verus! {

/// The content type of an upload that names none.
pub const DEFAULT_MIME_TYPE: &'static str = "application/octet-stream";

/// The text of an optional MIME type.
pub open spec fn mime_view(mime_type: Option<&str>) -> Option<Seq<char>> {
    match mime_type {
        Some(m) => Some(m@),
        None => None,
    }
}

/// The content type that an upload is sent with.
pub open spec fn content_type(mime_type: Option<Seq<char>>) -> Seq<char> {
    match mime_type {
        Some(m) => m,
        None => DEFAULT_MIME_TYPE@,
    }
}

/// The first step of uploading the file `from` as the object `key`.
pub open spec fn put_spec(
    from: Seq<char>,
    bucket: Seq<char>,
    key: Seq<char>,
    mime_type: Option<Seq<char>>,
) -> OutcomeView {
    OutcomeView::Next {
        job: JobView::Storing,
        action: ActionView::UploadFile { bucket, from, key, content_type: content_type(mime_type) },
    }
}

/// The first step of uploading `data` as the object `key`.
pub open spec fn put_data_spec(
    data: Seq<u8>,
    bucket: Seq<char>,
    key: Seq<char>,
    mime_type: Option<Seq<char>>,
) -> OutcomeView {
    OutcomeView::Next {
        job: JobView::Storing,
        action: ActionView::UploadData { bucket, key, data, content_type: content_type(mime_type) },
    }
}

/// The first step of downloading the object `key` into `download_dir`.
pub open spec fn get_spec(bucket: Seq<char>, key: Seq<char>, download_dir: Seq<char>) -> OutcomeView {
    let to = joined(download_dir, key);
    OutcomeView::Next {
        job: JobView::Fetching { to },
        action: ActionView::Download { bucket, key, to },
    }
}

/// The first step of streaming the object `key`.
pub open spec fn get_data_spec(bucket: Seq<char>, key: Seq<char>) -> OutcomeView {
    OutcomeView::Next { job: JobView::Opening, action: ActionView::OpenObject { bucket, key } }
}

/// Starts the streamed upload of the file `local_filepath` as the object
/// `filename` of `bucket_name`.
pub fn put(
    local_filepath: &str,
    bucket_name: &str,
    filename: &str,
    mime_type: Option<&str>,
) -> (outcome: Outcome)
    ensures
        outcome@ == put_spec(local_filepath@, bucket_name@, filename@, mime_view(mime_type)),
{
    Outcome::Next {
        job: Job::Storing,
        action: Action::UploadFile {
            bucket: bucket_name.to_owned(),
            from: local_filepath.to_owned(),
            key: filename.to_owned(),
            content_type: mime_type.unwrap_or(DEFAULT_MIME_TYPE).to_owned(),
        },
    }
}

/// Starts the upload of `data` as the object `filename` of `bucket_name`.
pub fn put_data(
    data: Vec<u8>,
    bucket_name: &str,
    filename: &str,
    mime_type: Option<&str>,
) -> (outcome: Outcome)
    ensures
        outcome@ == put_data_spec(data@, bucket_name@, filename@, mime_view(mime_type)),
{
    Outcome::Next {
        job: Job::Storing,
        action: Action::UploadData {
            bucket: bucket_name.to_owned(),
            key: filename.to_owned(),
            data,
            content_type: mime_type.unwrap_or(DEFAULT_MIME_TYPE).to_owned(),
        },
    }
}

/// Starts the download of the object `filename` of `bucket_name` into the
/// file of that name under `download_dir`.
pub fn get(bucket_name: &str, filename: &str, download_dir: &str) -> (outcome: Outcome)
    ensures
        outcome@ == get_spec(bucket_name@, filename@, download_dir@),
{
    let download_filepath = join(download_dir, filename);
    let to = download_filepath.clone();
    Outcome::Next {
        job: Job::Fetching { to: download_filepath },
        action: Action::Download { bucket: bucket_name.to_owned(), key: filename.to_owned(), to },
    }
}

/// Starts a streamed download of the object `filename` of `bucket_name`.
pub fn get_data(bucket_name: &str, filename: &str) -> (outcome: Outcome)
    ensures
        outcome@ == get_data_spec(bucket_name@, filename@),
{
    Outcome::Next {
        job: Job::Opening,
        action: Action::OpenObject { bucket: bucket_name.to_owned(), key: filename.to_owned() },
    }
}

} // verus!
