//! The state machine behind every operation: what a driver is asked to do,
//! what it reports back, and what follows from the report.

use vstd::prelude::*;
use crate::error::StorageError;

verus! {

/// One piece of outside work that a driver carries out for the library.
#[derive(Debug, Clone, PartialEq, Eq)]
pub enum Action {
    /// Find out whether the directory `path` exists.
    QueryDir { path: String },
    /// Create the directory `path` and every missing directory above it.
    CreateDirs { path: String },
    /// Copy the file `from` to `to`, replacing what `to` held.
    CopyFile { from: String, to: String },
    /// Create or truncate the file `to` and write `data` to it.
    WriteFile { to: String, data: Vec<u8> },
    /// Stream the file `from` into the object `key` of `bucket`.
    UploadFile { bucket: String, from: String, key: String, content_type: String },
    /// Store `data` as the object `key` of `bucket`.
    UploadData { bucket: String, key: String, data: Vec<u8>, content_type: String },
    /// Download the object `key` of `bucket` into the file `to`, creating or
    /// truncating it.
    Download { bucket: String, key: String, to: String },
    /// Open the file `path` for a streamed read.
    OpenFile { path: String },
    /// Open the object `key` of `bucket` for a streamed download.
    OpenObject { bucket: String, key: String },
}

/// The mathematical value of an [`Action`].
pub enum ActionView {
    QueryDir { path: Seq<char> },
    CreateDirs { path: Seq<char> },
    CopyFile { from: Seq<char>, to: Seq<char> },
    WriteFile { to: Seq<char>, data: Seq<u8> },
    UploadFile { bucket: Seq<char>, from: Seq<char>, key: Seq<char>, content_type: Seq<char> },
    UploadData { bucket: Seq<char>, key: Seq<char>, data: Seq<u8>, content_type: Seq<char> },
    Download { bucket: Seq<char>, key: Seq<char>, to: Seq<char> },
    OpenFile { path: Seq<char> },
    OpenObject { bucket: Seq<char>, key: Seq<char> },
}

impl View for Action {
    type V = ActionView;

    open spec fn view(&self) -> ActionView {
        match *self {
            Action::QueryDir { path } => ActionView::QueryDir { path: path@ },
            Action::CreateDirs { path } => ActionView::CreateDirs { path: path@ },
            Action::CopyFile { from, to } => ActionView::CopyFile { from: from@, to: to@ },
            Action::WriteFile { to, data } => ActionView::WriteFile { to: to@, data: data@ },
            Action::UploadFile { bucket, from, key, content_type } => ActionView::UploadFile {
                bucket: bucket@,
                from: from@,
                key: key@,
                content_type: content_type@,
            },
            Action::UploadData { bucket, key, data, content_type } => ActionView::UploadData {
                bucket: bucket@,
                key: key@,
                data: data@,
                content_type: content_type@,
            },
            Action::Download { bucket, key, to } => ActionView::Download {
                bucket: bucket@,
                key: key@,
                to: to@,
            },
            Action::OpenFile { path } => ActionView::OpenFile { path: path@ },
            Action::OpenObject { bucket, key } => ActionView::OpenObject {
                bucket: bucket@,
                key: key@,
            },
        }
    }
}

/// What a driver reports after it has carried out an [`Action`].
#[allow(inconsistent_fields)]
#[derive(Debug)]
pub enum Event {
    /// The directory asked for exists.
    Present,
    /// The directory asked for does not exist.
    Absent,
    /// The action was carried out in full.
    Completed,
    /// The local file system refused the action.
    IoFailed { cause: std::io::Error },
    /// The remote object store refused the action.
    ServiceFailed { cause: cloud_storage::Error },
}

/// An operation that waits for the report on its pending action.
#[derive(Debug)]
pub enum Job {
    /// Waits to learn whether `parent` exists; `transfer` comes after.
    Probing { parent: String, transfer: Action },
    /// Waits for the parent directory to be created; `transfer` comes after.
    Creating { transfer: Action },
    /// Waits for a copy, a write or an upload.
    Storing,
    /// Waits for a download into the file `to`.
    Fetching { to: String },
    /// Waits for the source of a byte stream to be opened.
    Opening,
}

/// The mathematical value of a [`Job`].
pub enum JobView {
    Probing { parent: Seq<char>, transfer: ActionView },
    Creating { transfer: ActionView },
    Storing,
    Fetching { to: Seq<char> },
    Opening,
}

impl View for Job {
    type V = JobView;

    open spec fn view(&self) -> JobView {
        match *self {
            Job::Probing { parent, transfer } => JobView::Probing {
                parent: parent@,
                transfer: transfer@,
            },
            Job::Creating { transfer } => JobView::Creating { transfer: transfer@ },
            Job::Storing => JobView::Storing,
            Job::Fetching { to } => JobView::Fetching { to: to@ },
            Job::Opening => JobView::Opening,
        }
    }
}

/// Where an operation stands after a step.
#[derive(Debug)]
pub enum Outcome {
    /// The driver carries out `action` and reports to `job`.
    Next { job: Job, action: Action },
    /// The blob is stored under its key.
    Stored,
    /// The blob is, or would be, in the local file `path`.
    Located { path: String },
    /// The source is open: its bytes follow, and no error came before them.
    Streaming,
    /// The operation failed, and nothing more is asked of the driver.
    Failed { error: StorageError },
    /// The report fits no answer to the pending action: `job` still waits.
    Ignored { job: Job },
}

/// The mathematical value of an [`Outcome`].
pub enum OutcomeView {
    Next { job: JobView, action: ActionView },
    Stored,
    Located { path: Seq<char> },
    Streaming,
    Failed { error: StorageError },
    Ignored { job: JobView },
}

impl View for Outcome {
    type V = OutcomeView;

    open spec fn view(&self) -> OutcomeView {
        match *self {
            Outcome::Next { job, action } => OutcomeView::Next { job: job@, action: action@ },
            Outcome::Stored => OutcomeView::Stored,
            Outcome::Located { path } => OutcomeView::Located { path: path@ },
            Outcome::Streaming => OutcomeView::Streaming,
            Outcome::Failed { error } => OutcomeView::Failed { error },
            Outcome::Ignored { job } => OutcomeView::Ignored { job: job@ },
        }
    }
}

/// What follows when `job` receives `event`.
///
/// A failure of either kind ends the job at once, with the cause it came
/// with. A missing parent directory is created before the transfer; a present
/// one leads straight to it.
pub open spec fn step(job: JobView, event: Event) -> OutcomeView {
    match event {
        Event::IoFailed { cause } => OutcomeView::Failed {
            error: StorageError::IOError { cause },
        },
        Event::ServiceFailed { cause } => OutcomeView::Failed {
            error: StorageError::CloudStorageError { cause },
        },
        Event::Present => match job {
            JobView::Probing { parent, transfer } => OutcomeView::Next {
                job: JobView::Storing,
                action: transfer,
            },
            _ => OutcomeView::Ignored { job },
        },
        Event::Absent => match job {
            JobView::Probing { parent, transfer } => OutcomeView::Next {
                job: JobView::Creating { transfer },
                action: ActionView::CreateDirs { path: parent },
            },
            _ => OutcomeView::Ignored { job },
        },
        Event::Completed => match job {
            JobView::Probing { parent, transfer } => OutcomeView::Ignored { job },
            JobView::Creating { transfer } => OutcomeView::Next {
                job: JobView::Storing,
                action: transfer,
            },
            JobView::Storing => OutcomeView::Stored,
            JobView::Fetching { to } => OutcomeView::Located { path: to },
            JobView::Opening => OutcomeView::Streaming,
        },
    }
}

impl Job {
    /// Takes the driver's report on the pending action and says what follows.
    pub fn advance(self, event: Event) -> (outcome: Outcome)
        ensures
            outcome@ == step(self@, event),
    {
        match event {
            Event::IoFailed { cause } => Outcome::Failed { error: StorageError::from(cause) },
            Event::ServiceFailed { cause } => Outcome::Failed { error: StorageError::from(cause) },
            Event::Present => match self {
                Job::Probing { parent, transfer } => Outcome::Next {
                    job: Job::Storing,
                    action: transfer,
                },
                other => Outcome::Ignored { job: other },
            },
            Event::Absent => match self {
                Job::Probing { parent, transfer } => Outcome::Next {
                    job: Job::Creating { transfer },
                    action: Action::CreateDirs { path: parent },
                },
                other => Outcome::Ignored { job: other },
            },
            Event::Completed => match self {
                Job::Probing { parent, transfer } => Outcome::Ignored {
                    job: Job::Probing { parent, transfer },
                },
                Job::Creating { transfer } => Outcome::Next { job: Job::Storing, action: transfer },
                Job::Storing => Outcome::Stored,
                Job::Fetching { to } => Outcome::Located { path: to },
                Job::Opening => Outcome::Streaming,
            },
        }
    }
}

} // verus!
