//! What holds of the operations taken together, over the model of the store.

use vstd::prelude::*;
use crate::client::{get_data_spec, get_spec, put_data_spec, put_spec, ClientView};
use crate::error::StorageError;
use crate::job::{step, ActionView, Event, JobView, OutcomeView};
use crate::path::{joined, parent_of};
use crate::store::{run, source, turn, Place};

verus! {

/// The place that a streamed read waits to be opened, if `outcome` is the
/// first step of one.
pub open spec fn opened(outcome: OutcomeView) -> Option<Place> {
    match outcome {
        OutcomeView::Next { job: JobView::Opening, action } => source(action),
        _ => None,
    }
}

/// The action that `outcome` asks of the driver, if it asks one.
pub open spec fn pending(outcome: OutcomeView) -> Option<ActionView> {
    match outcome {
        OutcomeView::Next { job, action } => Some(action),
        _ => None,
    }
}

/// What was stored with `put_data` is what `get_data` streams: once a driver
/// has carried the write out, whatever it found of the parent directory, the
/// place that a stream for the same key is opened on holds exactly the data,
/// under both backends.
pub proof fn lemma_put_data_then_get_data(
    client: ClientView,
    data: Seq<u8>,
    key: Seq<char>,
    mime_type: Option<Seq<char>>,
    store: Map<Place, Seq<u8>>,
    present: bool,
)
    ensures
        ({
            let put = run(put_data_spec(client, data, key, mime_type), store, present, 3);
            let place = opened(get_data_spec(client, key));
            &&& put.0 == OutcomeView::Stored
            &&& place is Some
            &&& put.1.dom().contains(place->0)
            &&& put.1[place->0] == data
        }),
{
    reveal_with_fuel(run, 4);
}

/// What was stored with `put` is what `get_data` streams: once a driver has
/// carried the copy or the upload out, the place that a stream for the same
/// key is opened on holds the bytes of the source file. The source file has
/// to exist, and a local copy of a file onto itself is left out.
pub proof fn lemma_put_then_get_data(
    client: ClientView,
    from: Seq<char>,
    key: Seq<char>,
    mime_type: Option<Seq<char>>,
    store: Map<Place, Seq<u8>>,
    present: bool,
)
    requires
        store.dom().contains(Place::File { path: from }),
        client matches ClientView::LocalStorage { directory } ==> joined(directory, key) != from,
    ensures
        ({
            let put = run(put_spec(client, from, key, mime_type), store, present, 3);
            let place = opened(get_data_spec(client, key));
            &&& put.0 == OutcomeView::Stored
            &&& place is Some
            &&& put.1.dom().contains(place->0)
            &&& put.1[place->0] == store[Place::File { path: from }]
        }),
{
    reveal_with_fuel(run, 4);
}

/// What was uploaded with `put_data` is what the remote `get` downloads: the
/// file that `get` names, under the download directory, then holds the data.
pub proof fn lemma_put_data_then_remote_get(
    bucket_name: Seq<char>,
    download_dir: Seq<char>,
    data: Seq<u8>,
    key: Seq<char>,
    mime_type: Option<Seq<char>>,
    store: Map<Place, Seq<u8>>,
    present: bool,
)
    ensures
        ({
            let client = ClientView::GoogleCloudStorage { bucket_name, download_dir };
            let put = run(put_data_spec(client, data, key, mime_type), store, present, 3);
            let got = run(get_spec(client, key), put.1, present, 3);
            let path = joined(download_dir, key);
            &&& put.0 == OutcomeView::Stored
            &&& got.0 == OutcomeView::Located { path }
            &&& got.1.dom().contains(Place::File { path })
            &&& got.1[Place::File { path }] == data
        }),
{
    reveal_with_fuel(run, 4);
}

/// The local `get` is path arithmetic alone: it answers at once with the
/// path of the key under the root, asks no action of the driver, and so
/// cannot depend on whether a file is there.
pub proof fn lemma_local_get_asks_nothing(directory: Seq<char>, key: Seq<char>)
    ensures
        get_spec(ClientView::LocalStorage { directory }, key) == (OutcomeView::Located {
            path: joined(directory, key),
        }),
{
}

/// The remote `get` asks for a download before it names a path, and a
/// download that the object store refuses ends in that storage-service
/// failure: no path is handed out for it.
pub proof fn lemma_remote_get_reports_service_failure(
    bucket_name: Seq<char>,
    download_dir: Seq<char>,
    key: Seq<char>,
    cause: cloud_storage::Error,
)
    ensures
        get_spec(ClientView::GoogleCloudStorage { bucket_name, download_dir }, key)
            matches OutcomeView::Next { job, action } && action == (ActionView::Download {
            bucket: bucket_name,
            key,
            to: joined(download_dir, key),
        }) && step(job, Event::ServiceFailed { cause }) == (OutcomeView::Failed {
            error: StorageError::CloudStorageError { cause },
        }),
{
}

/// A local write whose destination has a parent directory first asks whether
/// that directory exists; if it does not, the directory is created, with
/// every missing directory above it, before anything is written; and then
/// the transfer follows. A destination without a parent is written at once.
pub proof fn lemma_missing_parent_is_created_first(
    directory: Seq<char>,
    data: Seq<u8>,
    from: Seq<char>,
    key: Seq<char>,
    mime_type: Option<Seq<char>>,
    store: Map<Place, Seq<u8>>,
)
    ensures
        ({
            let client = ClientView::LocalStorage { directory };
            let to = joined(directory, key);
            let write = ActionView::WriteFile { to, data };
            let copy = ActionView::CopyFile { from, to };
            let first = put_data_spec(client, data, key, mime_type);
            let second = turn(first, store, false).0;
            let third = turn(second, store, false).0;
            let first_copy = put_spec(client, from, key, mime_type);
            let second_copy = turn(first_copy, store, false).0;
            let third_copy = turn(second_copy, store, false).0;
            match parent_of(to) {
                Some(parent) => {
                    &&& pending(first) == Some(ActionView::QueryDir { path: parent })
                    &&& pending(second) == Some(ActionView::CreateDirs { path: parent })
                    &&& third == (OutcomeView::Next { job: JobView::Storing, action: write })
                    &&& pending(first_copy) == Some(ActionView::QueryDir { path: parent })
                    &&& pending(second_copy) == Some(ActionView::CreateDirs { path: parent })
                    &&& third_copy == (OutcomeView::Next { job: JobView::Storing, action: copy })
                },
                None => {
                    &&& first == (OutcomeView::Next { job: JobView::Storing, action: write })
                    &&& first_copy == (OutcomeView::Next { job: JobView::Storing, action: copy })
                },
            }
        }),
{
}

/// A streamed read whose source cannot be opened fails before any byte: the
/// failure of the open is the outcome of `get_data`, with the kind and the
/// cause that the backend gave, and no stream comes to be.
pub proof fn lemma_failed_open_yields_no_byte(client: ClientView, key: Seq<char>, event: Event)
    requires
        event is IoFailed || event is ServiceFailed,
    ensures
        opened(get_data_spec(client, key)) is Some,
        get_data_spec(client, key) matches OutcomeView::Next { job, action } && step(job, event)
            == (OutcomeView::Failed {
            error: match event {
                Event::IoFailed { cause } => StorageError::IOError { cause },
                Event::ServiceFailed { cause } => StorageError::CloudStorageError { cause },
                _ => arbitrary(),
            },
        }),
{
}

} // verus!
