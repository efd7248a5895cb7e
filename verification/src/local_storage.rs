//! The backend that keeps blobs as files under a root directory.

use vstd::prelude::*;
use crate::job::{Action, ActionView, Job, JobView, Outcome, OutcomeView};
use crate::path::{join, joined, parent, parent_of};

verus! {

/// How a write into the directory tree begins: with a look at the parent
/// directory where the destination has one, else with the transfer itself.
pub open spec fn guarded_spec(parent: Option<Seq<char>>, transfer: ActionView) -> OutcomeView {
    match parent {
        Some(dir) => OutcomeView::Next {
            job: JobView::Probing { parent: dir, transfer },
            action: ActionView::QueryDir { path: dir },
        },
        None => OutcomeView::Next { job: JobView::Storing, action: transfer },
    }
}

/// The first step of copying the file `from` to the key `key` under `dir`.
pub open spec fn put_spec(from: Seq<char>, dir: Seq<char>, key: Seq<char>) -> OutcomeView {
    let to = joined(dir, key);
    guarded_spec(parent_of(to), ActionView::CopyFile { from, to })
}

/// The first step of writing `data` to the key `key` under `dir`.
pub open spec fn put_data_spec(data: Seq<u8>, dir: Seq<char>, key: Seq<char>) -> OutcomeView {
    let to = joined(dir, key);
    guarded_spec(parent_of(to), ActionView::WriteFile { to, data })
}

/// The first step of streaming the key `key` under `dir`.
pub open spec fn get_data_spec(dir: Seq<char>, key: Seq<char>) -> OutcomeView {
    OutcomeView::Next {
        job: JobView::Opening,
        action: ActionView::OpenFile { path: joined(dir, key) },
    }
}

/// Puts the look at the parent directory, if there is one, before `transfer`.
pub fn guarded(parent: Option<String>, transfer: Action) -> (outcome: Outcome)
    ensures
        outcome@ == guarded_spec(
            match parent {
                Some(dir) => Some(dir@),
                None => None,
            },
            transfer@,
        ),
{
    match parent {
        Some(dir) => {
            let path = dir.clone();
            Outcome::Next { job: Job::Probing { parent: dir, transfer }, action: Action::QueryDir { path } }
        },
        None => Outcome::Next { job: Job::Storing, action: transfer },
    }
}

/// Starts the copy of the file `local_filepath` to `filename` under
/// `to_directory`.
pub fn put(local_filepath: &str, to_directory: &str, filename: &str) -> (outcome: Outcome)
    ensures
        outcome@ == put_spec(local_filepath@, to_directory@, filename@),
{
    let copy_to = join(to_directory, filename);
    let parent_dir = parent(copy_to.as_str());
    guarded(parent_dir, Action::CopyFile { from: local_filepath.to_owned(), to: copy_to })
}

/// Starts the write of `data` to `filename` under `to_directory`.
pub fn put_data(data: Vec<u8>, to_directory: &str, filename: &str) -> (outcome: Outcome)
    ensures
        outcome@ == put_data_spec(data@, to_directory@, filename@),
{
    let destination = join(to_directory, filename);
    let parent_dir = parent(destination.as_str());
    guarded(parent_dir, Action::WriteFile { to: destination, data })
}

/// The path of `filename` under `directory`. The file system is not asked:
/// the path comes back whether or not a file is there.
pub fn get(directory: &str, filename: &str) -> (path: String)
    ensures
        path@ == joined(directory@, filename@),
{
    join(directory, filename)
}

/// Starts a streamed read of `filename` under `directory`.
pub fn get_data(directory: &str, filename: &str) -> (outcome: Outcome)
    ensures
        outcome@ == get_data_spec(directory@, filename@),
{
    Outcome::Next { job: Job::Opening, action: Action::OpenFile { path: join(directory, filename) } }
}

} // verus!
