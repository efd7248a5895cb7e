use std::collections::{HashMap, HashSet};

use file_storage::google_cloud_storage::DEFAULT_MIME_TYPE;
use file_storage::{
    Action, ByteStream, Chunk, Event, FileStorageClient, Item, Job, Outcome, StorageError,
};

/// An in-memory stand-in for the file system and the object store.
struct World {
    files: HashMap<String, Vec<u8>>,
    dirs: HashSet<String>,
    objects: HashMap<(String, String), Vec<u8>>,
    log: Vec<Action>,
}

fn empty_world() -> World {
    World { files: HashMap::new(), dirs: HashSet::new(), objects: HashMap::new(), log: Vec::new() }
}

fn not_found() -> std::io::Error {
    std::io::Error::new(std::io::ErrorKind::NotFound, "no such file")
}

fn no_object() -> cloud_storage::Error {
    cloud_storage::Error::Other("no such object".to_string())
}

fn perform(world: &mut World, action: Action) -> Event {
    world.log.push(action.clone());
    match action {
        Action::QueryDir { path } => {
            if world.dirs.contains(&path) {
                Event::Present
            } else {
                Event::Absent
            }
        }
        Action::CreateDirs { path } => {
            world.dirs.insert(path);
            Event::Completed
        }
        Action::CopyFile { from, to } => match world.files.get(&from).cloned() {
            Some(bytes) => {
                world.files.insert(to, bytes);
                Event::Completed
            }
            None => Event::IoFailed { cause: not_found() },
        },
        Action::WriteFile { to, data } => {
            world.files.insert(to, data);
            Event::Completed
        }
        Action::UploadFile { bucket, from, key, content_type: _ } => {
            match world.files.get(&from).cloned() {
                Some(bytes) => {
                    world.objects.insert((bucket, key), bytes);
                    Event::Completed
                }
                None => Event::IoFailed { cause: not_found() },
            }
        }
        Action::UploadData { bucket, key, data, content_type: _ } => {
            world.objects.insert((bucket, key), data);
            Event::Completed
        }
        Action::Download { bucket, key, to } => match world.objects.get(&(bucket, key)).cloned() {
            Some(bytes) => {
                world.files.insert(to, bytes);
                Event::Completed
            }
            None => Event::ServiceFailed { cause: no_object() },
        },
        Action::OpenFile { path } => {
            if world.files.contains_key(&path) {
                Event::Completed
            } else {
                Event::IoFailed { cause: not_found() }
            }
        }
        Action::OpenObject { bucket, key } => {
            if world.objects.contains_key(&(bucket, key)) {
                Event::Completed
            } else {
                Event::ServiceFailed { cause: no_object() }
            }
        }
    }
}

fn drive(world: &mut World, first: Outcome) -> Outcome {
    let mut outcome = first;
    loop {
        match outcome {
            Outcome::Next { job, action } => {
                let event = perform(world, action);
                outcome = job.advance(event);
            }
            done => return done,
        }
    }
}

/// Streams `bytes` in chunks of `size` and collects what comes out.
fn drain(bytes: &[u8], size: usize) -> (Vec<u8>, Item) {
    let mut stream = ByteStream::new();
    let mut chunks = bytes.chunks(size);
    let mut out = Vec::new();
    loop {
        match stream.next() {
            Item::Byte { value } => out.push(value),
            Item::Starved => match chunks.next() {
                Some(chunk) => stream.feed(Chunk::Data { bytes: chunk.to_vec() }),
                None => stream.feed(Chunk::End),
            },
            last => return (out, last),
        }
    }
}

#[test]
fn local_scenario_put_data_get_and_get_data() {
    let client = FileStorageClient::new_local_storage("/tmp/store");
    let mut world = empty_world();
    let stored = drive(&mut world, client.put_data(vec![1, 2, 3], "a/b.bin", None));
    assert!(matches!(stored, Outcome::Stored));
    assert_eq!(world.files.get("/tmp/store/a/b.bin"), Some(&vec![1, 2, 3]));
    assert!(world.dirs.contains("/tmp/store/a"));

    match client.get("a/b.bin") {
        Outcome::Located { path } => assert_eq!(path, "/tmp/store/a/b.bin"),
        other => panic!("unexpected outcome: {:?}", other),
    }

    let opened = drive(&mut world, client.get_data("a/b.bin"));
    assert!(matches!(opened, Outcome::Streaming));
    assert_eq!(world.log.last(), Some(&Action::OpenFile { path: "/tmp/store/a/b.bin".to_string() }));
    let (bytes, last) = drain(&world.files["/tmp/store/a/b.bin"], 2);
    assert_eq!(bytes, vec![1, 2, 3]);
    assert!(matches!(last, Item::End));
}

#[test]
fn remote_scenario_put_data_then_get() {
    let client = FileStorageClient::new_google_cloud_storage("bkt", "/var/downloads");
    let mut world = empty_world();
    let stored = drive(&mut world, client.put_data(vec![9, 9], "x.bin", None));
    assert!(matches!(stored, Outcome::Stored));
    assert_eq!(
        world.log,
        vec![Action::UploadData {
            bucket: "bkt".to_string(),
            key: "x.bin".to_string(),
            data: vec![9, 9],
            content_type: "application/octet-stream".to_string(),
        }]
    );
    match drive(&mut world, client.get("x.bin")) {
        Outcome::Located { path } => {
            assert_eq!(path, "/var/downloads/x.bin");
            assert_eq!(world.files.get(&path), Some(&vec![9, 9]));
        }
        other => panic!("unexpected outcome: {:?}", other),
    }
}

#[test]
fn round_trip_put_data_get_data_local() {
    let client = FileStorageClient::new_local_storage("root");
    let mut world = empty_world();
    let data: Vec<u8> = (0..=255).collect();
    assert!(matches!(drive(&mut world, client.put_data(data.clone(), "k", None)), Outcome::Stored));
    match client.get_data("k") {
        Outcome::Next { job: Job::Opening, action: Action::OpenFile { path } } => {
            assert_eq!(path, "root/k");
            let (bytes, last) = drain(&world.files[&path], 7);
            assert_eq!(bytes, data);
            assert!(matches!(last, Item::End));
        }
        other => panic!("unexpected outcome: {:?}", other),
    }
}

#[test]
fn round_trip_put_data_get_data_remote() {
    let client = FileStorageClient::new_google_cloud_storage("bkt", "dl");
    let mut world = empty_world();
    let data = vec![5, 4, 3, 2, 1, 0];
    assert!(matches!(drive(&mut world, client.put_data(data.clone(), "k", None)), Outcome::Stored));
    match client.get_data("k") {
        Outcome::Next { job: Job::Opening, action: Action::OpenObject { bucket, key } } => {
            let (bytes, last) = drain(&world.objects[&(bucket, key)], 1);
            assert_eq!(bytes, data);
            assert!(matches!(last, Item::End));
        }
        other => panic!("unexpected outcome: {:?}", other),
    }
}

#[test]
fn round_trip_put_get_data_both_backends() {
    let mut world = empty_world();
    world.files.insert("/src/f.txt".to_string(), vec![7, 8, 9]);

    let local = FileStorageClient::new_local_storage("/data");
    assert!(matches!(drive(&mut world, local.put("/src/f.txt", "f.txt", None)), Outcome::Stored));
    assert_eq!(world.files.get("/data/f.txt"), Some(&vec![7, 8, 9]));
    assert!(matches!(drive(&mut world, local.get_data("f.txt")), Outcome::Streaming));

    let remote = FileStorageClient::new_google_cloud_storage("bkt", "/dl");
    let stored = drive(&mut world, remote.put("/src/f.txt", "f.txt", Some("text/plain")));
    assert!(matches!(stored, Outcome::Stored));
    assert_eq!(
        world.log.last(),
        Some(&Action::UploadFile {
            bucket: "bkt".to_string(),
            from: "/src/f.txt".to_string(),
            key: "f.txt".to_string(),
            content_type: "text/plain".to_string(),
        })
    );
    assert_eq!(world.objects.get(&("bkt".to_string(), "f.txt".to_string())), Some(&vec![7, 8, 9]));
    assert!(matches!(drive(&mut world, remote.get_data("f.txt")), Outcome::Streaming));
}

#[test]
fn local_get_does_not_check_existence() {
    let client = FileStorageClient::new_local_storage("/tmp/store");
    match client.get("missing/never-written.bin") {
        Outcome::Located { path } => assert_eq!(path, "/tmp/store/missing/never-written.bin"),
        other => panic!("unexpected outcome: {:?}", other),
    }
}

#[test]
fn local_get_free_function_joins_root_and_key() {
    assert_eq!(file_storage::local_storage::get("/tmp/store", "a/b.bin"), "/tmp/store/a/b.bin");
    assert_eq!(file_storage::local_storage::get("/tmp/store/", "b.bin"), "/tmp/store/b.bin");
}

#[test]
fn remote_get_of_missing_object_is_a_service_error() {
    let client = FileStorageClient::new_google_cloud_storage("bkt", "/dl");
    let mut world = empty_world();
    match drive(&mut world, client.get("absent.bin")) {
        Outcome::Failed { error: StorageError::CloudStorageError { cause: _ } } => {}
        other => panic!("unexpected outcome: {:?}", other),
    }
    assert!(world.files.is_empty());
    assert_eq!(
        world.log,
        vec![Action::Download {
            bucket: "bkt".to_string(),
            key: "absent.bin".to_string(),
            to: "/dl/absent.bin".to_string(),
        }]
    );
}

#[test]
fn nested_key_creates_missing_directories_before_writing() {
    let client = FileStorageClient::new_local_storage("/tmp/store");
    let mut world = empty_world();
    let stored = drive(&mut world, client.put_data(vec![1], "x/y/z.bin", None));
    assert!(matches!(stored, Outcome::Stored));
    assert_eq!(
        world.log,
        vec![
            Action::QueryDir { path: "/tmp/store/x/y".to_string() },
            Action::CreateDirs { path: "/tmp/store/x/y".to_string() },
            Action::WriteFile { to: "/tmp/store/x/y/z.bin".to_string(), data: vec![1] },
        ]
    );
}

#[test]
fn present_parent_is_not_created_again() {
    let client = FileStorageClient::new_local_storage("/tmp/store");
    let mut world = empty_world();
    world.dirs.insert("/tmp/store/x".to_string());
    world.files.insert("/in".to_string(), vec![4, 2]);
    let stored = drive(&mut world, client.put("/in", "x/z.bin", None));
    assert!(matches!(stored, Outcome::Stored));
    assert_eq!(
        world.log,
        vec![
            Action::QueryDir { path: "/tmp/store/x".to_string() },
            Action::CopyFile { from: "/in".to_string(), to: "/tmp/store/x/z.bin".to_string() },
        ]
    );
}

#[test]
fn put_of_missing_source_is_an_io_error() {
    let mut world = empty_world();
    let local = FileStorageClient::new_local_storage("/data");
    match drive(&mut world, local.put("/nowhere", "k", None)) {
        Outcome::Failed { error: StorageError::IOError { cause } } => {
            assert_eq!(cause.kind(), std::io::ErrorKind::NotFound)
        }
        other => panic!("unexpected outcome: {:?}", other),
    }
    let remote = FileStorageClient::new_google_cloud_storage("bkt", "/dl");
    match drive(&mut world, remote.put("/nowhere", "k", None)) {
        Outcome::Failed { error: StorageError::IOError { cause: _ } } => {}
        other => panic!("unexpected outcome: {:?}", other),
    }
}

#[test]
fn get_data_of_missing_source_fails_before_any_byte() {
    let mut world = empty_world();
    let local = FileStorageClient::new_local_storage("/data");
    match drive(&mut world, local.get_data("missing")) {
        Outcome::Failed { error: StorageError::IOError { cause: _ } } => {}
        other => panic!("unexpected outcome: {:?}", other),
    }
    let remote = FileStorageClient::new_google_cloud_storage("bkt", "/dl");
    match drive(&mut world, remote.get_data("missing")) {
        Outcome::Failed { error: StorageError::CloudStorageError { cause: _ } } => {}
        other => panic!("unexpected outcome: {:?}", other),
    }
}

#[test]
fn default_mime_type_is_octet_stream() {
    assert_eq!(DEFAULT_MIME_TYPE, "application/octet-stream");
    let client = FileStorageClient::new_google_cloud_storage("bkt", "/dl");
    match client.put("/src", "k", None) {
        Outcome::Next { job: Job::Storing, action: Action::UploadFile { content_type, .. } } => {
            assert_eq!(content_type, "application/octet-stream")
        }
        other => panic!("unexpected outcome: {:?}", other),
    }
    match client.put_data(vec![], "k", Some("image/png")) {
        Outcome::Next { job: Job::Storing, action: Action::UploadData { content_type, .. } } => {
            assert_eq!(content_type, "image/png")
        }
        other => panic!("unexpected outcome: {:?}", other),
    }
}

#[test]
fn mime_type_plays_no_part_in_a_local_write() {
    let client = FileStorageClient::new_local_storage("/r");
    let mut with = empty_world();
    let mut without = empty_world();
    drive(&mut with, client.put_data(vec![1], "d/k", Some("text/plain")));
    drive(&mut without, client.put_data(vec![1], "d/k", None));
    assert_eq!(with.log, without.log);
}

#[test]
fn constructors_keep_their_arguments() {
    match FileStorageClient::new_local_storage("some/dir") {
        FileStorageClient::LocalStorage { directory } => assert_eq!(directory, "some/dir"),
        other => panic!("unexpected client: {:?}", other),
    }
    match FileStorageClient::new_google_cloud_storage("bucket", "dl") {
        FileStorageClient::GoogleCloudStorage { bucket_name, download_dir } => {
            assert_eq!(bucket_name, "bucket");
            assert_eq!(download_dir, "dl");
        }
        other => panic!("unexpected client: {:?}", other),
    }
}

#[test]
fn errors_convert_to_their_kind() {
    assert!(matches!(StorageError::from(not_found()), StorageError::IOError { .. }));
    assert!(matches!(StorageError::from(no_object()), StorageError::CloudStorageError { .. }));
}

#[test]
fn failure_ends_any_job_with_its_cause() {
    match Job::Storing.advance(Event::ServiceFailed { cause: no_object() }) {
        Outcome::Failed { error: StorageError::CloudStorageError { cause } } => {
            assert!(matches!(cause, cloud_storage::Error::Other(text) if text == "no such object"))
        }
        other => panic!("unexpected outcome: {:?}", other),
    }
    let probing = Job::Probing {
        parent: "p".to_string(),
        transfer: Action::WriteFile { to: "p/f".to_string(), data: vec![] },
    };
    match probing.advance(Event::IoFailed { cause: not_found() }) {
        Outcome::Failed { error: StorageError::IOError { cause } } => {
            assert_eq!(cause.kind(), std::io::ErrorKind::NotFound)
        }
        other => panic!("unexpected outcome: {:?}", other),
    }
}

#[test]
fn report_that_fits_no_pending_action_is_ignored() {
    assert!(matches!(Job::Storing.advance(Event::Present), Outcome::Ignored { job: Job::Storing }));
    assert!(matches!(Job::Opening.advance(Event::Absent), Outcome::Ignored { job: Job::Opening }));
    let probing = Job::Probing {
        parent: "p".to_string(),
        transfer: Action::WriteFile { to: "p/f".to_string(), data: vec![1] },
    };
    match probing.advance(Event::Completed) {
        Outcome::Ignored { job: Job::Probing { parent, transfer } } => {
            assert_eq!(parent, "p");
            assert_eq!(transfer, Action::WriteFile { to: "p/f".to_string(), data: vec![1] });
        }
        other => panic!("unexpected outcome: {:?}", other),
    }
    let creating = Job::Creating { transfer: Action::OpenFile { path: "q".to_string() } };
    assert!(matches!(creating.advance(Event::Present), Outcome::Ignored { job: Job::Creating { .. } }));
}

#[test]
fn key_without_parent_is_written_at_once() {
    let client = FileStorageClient::new_local_storage("");
    match client.put_data(vec![1], "/", None) {
        Outcome::Next { job: Job::Storing, action } => {
            assert_eq!(action, Action::WriteFile { to: "/".to_string(), data: vec![1] })
        }
        other => panic!("unexpected outcome: {:?}", other),
    }
}

#[test]
fn stream_flattens_chunks_in_order() {
    let (bytes, last) = drain(&[1, 2, 3, 4, 5], 2);
    assert_eq!(bytes, vec![1, 2, 3, 4, 5]);
    assert!(matches!(last, Item::End));
    let (none, last) = drain(&[], 3);
    assert!(none.is_empty());
    assert!(matches!(last, Item::End));
}

#[test]
fn stream_queues_data_behind_pending_bytes() {
    let mut stream = ByteStream::new();
    stream.feed(Chunk::Data { bytes: vec![1, 2] });
    assert!(matches!(stream.next(), Item::Byte { value: 1 }));
    stream.feed(Chunk::Data { bytes: vec![] });
    stream.feed(Chunk::Data { bytes: vec![3] });
    assert!(matches!(stream.next(), Item::Byte { value: 2 }));
    assert!(matches!(stream.next(), Item::Byte { value: 3 }));
    assert!(matches!(stream.next(), Item::Starved));
    assert!(matches!(stream.next(), Item::Starved));
}

#[test]
fn stream_ends_at_the_first_failure() {
    let mut stream = ByteStream::new();
    stream.feed(Chunk::Data { bytes: vec![10, 11] });
    stream.feed(Chunk::IoFailed { cause: not_found() });
    stream.feed(Chunk::Data { bytes: vec![12] });
    stream.feed(Chunk::ServiceFailed { cause: no_object() });
    assert!(matches!(stream.next(), Item::Byte { value: 10 }));
    assert!(matches!(stream.next(), Item::Byte { value: 11 }));
    match stream.next() {
        Item::Failed { error: StorageError::IOError { cause } } => {
            assert_eq!(cause.kind(), std::io::ErrorKind::NotFound)
        }
        other => panic!("unexpected item: {:?}", other),
    }
    assert!(matches!(stream.next(), Item::End));
    assert!(matches!(stream.next(), Item::End));
}

#[test]
fn stream_reports_a_service_failure() {
    let mut stream = ByteStream::new();
    stream.feed(Chunk::ServiceFailed { cause: no_object() });
    assert!(matches!(
        stream.next(),
        Item::Failed { error: StorageError::CloudStorageError { .. } }
    ));
    assert!(matches!(stream.next(), Item::End));
}

#[test]
fn stream_takes_nothing_after_its_end() {
    let mut stream = ByteStream::new();
    assert!(matches!(stream.next(), Item::Starved));
    stream.feed(Chunk::End);
    stream.feed(Chunk::Data { bytes: vec![1] });
    stream.feed(Chunk::IoFailed { cause: not_found() });
    assert!(matches!(stream.next(), Item::End));
}
