//! What the actions mean: a model of the blobs behind both backends, and of
//! a driver that carries every action out in full.

use vstd::prelude::*;
use crate::job::{step, ActionView, Event, OutcomeView};

verus! {

/// Where a blob lives.
pub enum Place {
    /// A file of the local file system.
    File { path: Seq<char> },
    /// An object of a bucket.
    Object { bucket: Seq<char>, key: Seq<char> },
}

/// What a store holds once `action` was carried out in full. A copy, an
/// upload of a file or a download whose source holds nothing changes nothing
/// here: a driver reports such a thing as a failure.
pub open spec fn effect(store: Map<Place, Seq<u8>>, action: ActionView) -> Map<Place, Seq<u8>> {
    match action {
        ActionView::CopyFile { from, to } => if store.dom().contains(Place::File { path: from }) {
            store.insert(Place::File { path: to }, store[Place::File { path: from }])
        } else {
            store
        },
        ActionView::WriteFile { to, data } => store.insert(Place::File { path: to }, data),
        ActionView::UploadFile { bucket, from, key, content_type } => if store.dom().contains(
            Place::File { path: from },
        ) {
            store.insert(Place::Object { bucket, key }, store[Place::File { path: from }])
        } else {
            store
        },
        ActionView::UploadData { bucket, key, data, content_type } => store.insert(
            Place::Object { bucket, key },
            data,
        ),
        ActionView::Download { bucket, key, to } => if store.dom().contains(
            Place::Object { bucket, key },
        ) {
            store.insert(Place::File { path: to }, store[Place::Object { bucket, key }])
        } else {
            store
        },
        _ => store,
    }
}

/// The place whose bytes a stream hands out, for an action that opens one.
pub open spec fn source(action: ActionView) -> Option<Place> {
    match action {
        ActionView::OpenFile { path } => Some(Place::File { path }),
        ActionView::OpenObject { bucket, key } => Some(Place::Object { bucket, key }),
        _ => None,
    }
}

/// The report of a driver that meets no failure. `present` is its answer to
/// a question about a directory.
pub open spec fn report(action: ActionView, present: bool) -> Event {
    match action {
        ActionView::QueryDir { path } => if present {
            Event::Present
        } else {
            Event::Absent
        },
        _ => Event::Completed,
    }
}

/// One turn of a driver that meets no failure: it carries out the pending
/// action, if there is one, and reports.
pub open spec fn turn(outcome: OutcomeView, store: Map<Place, Seq<u8>>, present: bool) -> (
    OutcomeView,
    Map<Place, Seq<u8>>,
) {
    match outcome {
        OutcomeView::Next { job, action } => (
            step(job, report(action, present)),
            effect(store, action),
        ),
        _ => (outcome, store),
    }
}

/// The operation and the store after `turns` turns of such a driver.
pub open spec fn run(
    outcome: OutcomeView,
    store: Map<Place, Seq<u8>>,
    present: bool,
    turns: nat,
) -> (OutcomeView, Map<Place, Seq<u8>>)
    decreases turns,
{
    if turns == 0 {
        (outcome, store)
    } else {
        let after = turn(outcome, store, present);
        run(after.0, after.1, present, (turns - 1) as nat)
    }
}

} // verus!
