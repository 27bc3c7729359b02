use bytes::Bytes;
use std::collections::HashMap;
use storage_gateway::kinds::{ErrorKind, StorageTarget};
use storage_gateway::provision::{CreateOutcome, ProbeOutcome};
use storage_gateway::reply::Reply;
use storage_gateway::transfer::{
    begin_get, begin_put, bucket_created, bucket_probed, fetched, put, source_read, stored,
    FetchOutcome, Roots, SourceOutcome, Step, StoreOutcome,
};

/// Backends that keep what they are given, held in memory.
#[derive(Clone, Debug, Default, PartialEq)]
struct World {
    intake: HashMap<String, Vec<u8>>,
    files: HashMap<String, Vec<u8>>,
    bucket: Option<HashMap<String, Vec<u8>>>,
    rows: Vec<(String, String)>,
    bucket_probes: usize,
}

impl World {
    fn with_intake(files: &[(&str, &[u8])]) -> World {
        let mut world = World::default();
        for (path, bytes) in files {
            world.intake.insert(path.to_string(), bytes.to_vec());
        }
        world
    }

    /// Carries `step` out and hands the outcome to the function that the
    /// step names, until the request is answered.
    fn run(&mut self, target: StorageTarget, first: Step, roots: &Roots) -> Reply {
        let mut step = first;
        let mut taken = 0;
        loop {
            assert!(taken <= 4, "a request takes at most four steps");
            taken += 1;
            step = match step {
                Step::Respond(reply) => return reply,
                Step::ReadSource { name, path } => {
                    let outcome = match self.intake.get(&path) {
                        Some(bytes) => SourceOutcome::Read(bytes.clone()),
                        None => SourceOutcome::Missing,
                    };
                    source_read(target, name, outcome, roots)
                }
                Step::WriteFile { name, path, content } => {
                    self.files.insert(path, content.into_bytes());
                    Step::Respond(stored(target, &name, StoreOutcome::Stored))
                }
                Step::ProbeBucket { name, content } => {
                    self.bucket_probes += 1;
                    let outcome = match self.bucket {
                        Some(_) => ProbeOutcome::Present,
                        None => ProbeOutcome::Absent,
                    };
                    bucket_probed(name, content, outcome)
                }
                Step::CreateBucket { name, content } => {
                    let outcome = match self.bucket {
                        Some(_) => CreateOutcome::AlreadyExists,
                        None => {
                            self.bucket = Some(HashMap::new());
                            CreateOutcome::Created
                        }
                    };
                    bucket_created(name, content, outcome)
                }
                Step::PutObject { key, body } => {
                    let outcome = match self.bucket.as_mut() {
                        Some(objects) => {
                            objects.insert(key.clone(), body.into_bytes());
                            StoreOutcome::Stored
                        }
                        None => StoreOutcome::Failed("NoSuchBucket".to_string()),
                    };
                    Step::Respond(stored(target, &key, outcome))
                }
                Step::InsertRow { name, data } => {
                    self.rows.push((name.clone(), data));
                    Step::Respond(stored(target, &name, StoreOutcome::Stored))
                }
                Step::ReadFile { name, path } => {
                    let outcome = match self.files.get(&path) {
                        Some(bytes) => FetchOutcome::Found(bytes.clone()),
                        None => FetchOutcome::Missing,
                    };
                    Step::Respond(fetched(target, &name, outcome))
                }
                Step::GetObject { key } => {
                    let found = self.bucket.as_ref().and_then(|objects| objects.get(&key));
                    let outcome = match found {
                        Some(bytes) => FetchOutcome::Found(bytes.clone()),
                        None => FetchOutcome::Missing,
                    };
                    Step::Respond(fetched(target, &key, outcome))
                }
                Step::SelectRow { name } => {
                    let found = self.rows.iter().find(|row| row.0 == name);
                    let outcome = match found {
                        Some(row) => FetchOutcome::Found(row.1.clone().into_bytes()),
                        None => FetchOutcome::Missing,
                    };
                    Step::Respond(fetched(target, &name, outcome))
                }
            };
        }
    }

    fn put(&mut self, target: StorageTarget, payload: &'static [u8], roots: &Roots) -> Reply {
        let first = begin_put(target, &Bytes::from_static(payload), roots);
        self.run(target, first, roots)
    }

    fn store(&mut self, target: StorageTarget, name: &str, content: &str, roots: &Roots) -> Reply {
        let first = put(target, name.to_string(), content.to_string(), roots);
        self.run(target, first, roots)
    }

    fn get(&mut self, target: StorageTarget, name: &str, roots: &Roots) -> Reply {
        let first = begin_get(target, name.to_string(), roots);
        self.run(target, first, roots)
    }
}

const TARGETS: [StorageTarget; 3] =
    [StorageTarget::Local, StorageTarget::Object, StorageTarget::Relational];

fn ok(body: &str) -> Reply {
    Reply { status: 200, body: body.to_string(), error: None }
}

#[test]
fn put_local_then_get_local_returns_the_report() {
    let roots = Roots::standard();
    let mut world = World::with_intake(&[("/usr/src/app/Downloads/report.txt", b"hello")]);
    assert_eq!(
        world.put(StorageTarget::Local, b"report.txt", &roots),
        ok("File put locally: report.txt")
    );
    assert_eq!(world.files.get("local_store/report.txt"), Some(&b"hello".to_vec()));
    assert_eq!(world.get(StorageTarget::Local, "report.txt", &roots), ok("hello"));
}

#[test]
fn get_mysql_of_a_missing_row_is_404() {
    let roots = Roots::standard();
    let mut world = World::default();
    let reply = world.get(StorageTarget::Relational, "missing.txt", &roots);
    assert_eq!(reply.status, 404);
    assert_eq!(reply.body, "File not found in MySQL: missing.txt");
    assert!(reply.body.to_lowercase().contains("not found"));
    assert_eq!(reply.error, Some(ErrorKind::NotFound));
}

#[test]
fn put_s3_without_an_intake_file_is_400() {
    let roots = Roots::standard();
    let mut world = World::default();
    let before = world.clone();
    assert_eq!(
        world.put(StorageTarget::Object, b"absent.txt", &roots),
        Reply {
            status: 400,
            body: "File not found".to_string(),
            error: Some(ErrorKind::NotFound),
        }
    );
    assert_eq!(world, before);
}

#[test]
fn what_is_put_is_what_is_got() {
    let roots = Roots::new("in".to_string(), "out".to_string());
    let files: [(&str, &'static [u8], &str, &str); 4] = [
        ("in/a.txt", b"a.txt", "a.txt", "alpha"),
        ("in/dir/b.txt", b"dir/b.txt", "dir/b.txt", "line one\nline two\n"),
        ("in/empty", b"empty", "empty", ""),
        ("in/\u{fc}ber", "\u{fc}ber".as_bytes(), "\u{fc}ber", "gr\u{fc}\u{df}e \u{1f600}"),
    ];
    for target in TARGETS {
        let mut world = World::default();
        for (path, _, _, content) in files {
            world.intake.insert(path.to_string(), content.as_bytes().to_vec());
        }
        for (_, payload, name, content) in files {
            let put = world.put(target, payload, &roots);
            assert_eq!(put.status, 200);
            assert_eq!(put.error, None);
            assert!(put.body.ends_with(name));
            assert_eq!(world.get(target, name, &roots), ok(content));
        }
        for (_, _, name, content) in files {
            assert_eq!(world.get(target, name, &roots), ok(content));
        }
    }
}

#[test]
fn what_is_put_to_a_backend_is_what_is_got_from_it() {
    let roots = Roots::new("in".to_string(), "out".to_string());
    let entries = [("a", "alpha"), ("dir/b", "beta\n"), ("", "nameless"), ("\u{e9}", "\u{1f600}")];
    for target in TARGETS {
        let mut world = World::default();
        for (name, content) in entries {
            assert_eq!(world.store(target, name, content, &roots).status, 200);
            assert_eq!(world.get(target, name, &roots), ok(content));
        }
        for (name, content) in entries {
            assert_eq!(world.get(target, name, &roots), ok(content));
        }
    }
}

#[test]
fn the_object_store_and_the_table_give_back_any_key() {
    let roots = Roots::new("in".to_string(), "out".to_string());
    for target in [StorageTarget::Object, StorageTarget::Relational] {
        let mut world = World::default();
        for name in ["../x", "/abs", "a/../b"] {
            assert_eq!(world.store(target, name, name, &roots).status, 200);
        }
        for name in ["../x", "/abs", "a/../b"] {
            assert_eq!(world.get(target, name, &roots), ok(name));
        }
    }
}

#[test]
fn the_last_put_is_the_one_that_is_got() {
    let roots = Roots::new("in".to_string(), "out".to_string());
    for target in [StorageTarget::Local, StorageTarget::Object] {
        let mut world = World::default();
        assert_eq!(world.store(target, "a", "first", &roots).status, 200);
        assert_eq!(world.store(target, "b", "other", &roots).status, 200);
        assert_eq!(world.store(target, "a", "second", &roots).status, 200);
        assert_eq!(world.store(target, "c", "more", &roots).status, 200);
        assert_eq!(world.store(StorageTarget::Relational, "a", "elsewhere", &roots).status, 200);
        assert_eq!(world.get(target, "a", &roots), ok("second"));
        assert_eq!(world.get(target, "b", &roots), ok("other"));
    }
}

#[test]
fn a_second_put_replaces_a_file_or_an_object() {
    let roots = Roots::new("in".to_string(), "out".to_string());
    for target in [StorageTarget::Local, StorageTarget::Object] {
        let mut world = World::with_intake(&[("in/a.txt", b"old")]);
        assert_eq!(world.put(target, b"a.txt", &roots).status, 200);
        world.intake.insert("in/a.txt".to_string(), b"new".to_vec());
        assert_eq!(world.put(target, b"a.txt", &roots).status, 200);
        assert_eq!(world.get(target, "a.txt", &roots), ok("new"));
    }
}

#[test]
fn a_second_put_adds_a_row() {
    let roots = Roots::new("in".to_string(), "out".to_string());
    let mut world = World::with_intake(&[("in/a.txt", b"old")]);
    assert_eq!(world.put(StorageTarget::Relational, b"a.txt", &roots).status, 200);
    world.intake.insert("in/a.txt".to_string(), b"new".to_vec());
    assert_eq!(world.put(StorageTarget::Relational, b"a.txt", &roots).status, 200);
    assert_eq!(
        world.rows,
        vec![("a.txt".to_string(), "old".to_string()), ("a.txt".to_string(), "new".to_string())]
    );
    let reply = world.get(StorageTarget::Relational, "a.txt", &roots);
    assert_eq!(reply.status, 200);
    assert!(reply.body == "old" || reply.body == "new");
}

#[test]
fn a_name_never_written_is_not_found() {
    let roots = Roots::new("in".to_string(), "out".to_string());
    for target in TARGETS {
        let mut world = World::with_intake(&[("in/a.txt", b"alpha")]);
        assert_eq!(world.put(target, b"a.txt", &roots).status, 200);
        let before = world.clone();
        for name in ["b.txt", "a.tx", "a.txt ", "", "../in/a.txt"] {
            let reply = world.get(target, name, &roots);
            assert_eq!(reply.error, Some(ErrorKind::NotFound));
            assert_ne!(reply.error, Some(ErrorKind::TransferFailure));
            let expected = if target == StorageTarget::Relational { 404 } else { 500 };
            assert_eq!(reply.status, expected);
        }
        assert_eq!(world, before);
    }
}

#[test]
fn the_bucket_is_created_once_and_found_afterwards() {
    let roots = Roots::new("in".to_string(), "out".to_string());
    let mut world = World::with_intake(&[("in/a.txt", b"alpha"), ("in/b.txt", b"beta")]);
    assert_eq!(world.bucket, None);
    assert_eq!(world.put(StorageTarget::Object, b"a.txt", &roots), ok("File put to S3: a.txt"));
    assert_eq!(world.bucket_probes, 1);
    assert_eq!(world.put(StorageTarget::Object, b"a.txt", &roots), ok("File put to S3: a.txt"));
    assert_eq!(world.put(StorageTarget::Object, b"b.txt", &roots), ok("File put to S3: b.txt"));
    assert_eq!(world.bucket_probes, 3);
    assert_eq!(world.bucket.as_ref().map(|objects| objects.len()), Some(2));
}

#[test]
fn a_bucket_created_by_someone_else_meanwhile_does_not_fail_the_write() {
    let step = bucket_probed("a.txt".to_string(), "alpha".to_string(), ProbeOutcome::Absent);
    let (name, content) = match step {
        Step::CreateBucket { name, content } => (name, content),
        other => panic!("expected the bucket to be created, got {:?}", other),
    };
    let step = bucket_created(name, content, CreateOutcome::AlreadyExists);
    assert_eq!(step, Step::PutObject { key: "a.txt".to_string(), body: "alpha".to_string() });
    assert_eq!(
        stored(StorageTarget::Object, "a.txt", StoreOutcome::Stored),
        ok("File put to S3: a.txt")
    );
}

#[test]
fn a_payload_that_is_not_utf8_changes_nothing() {
    let roots = Roots::new("in".to_string(), "out".to_string());
    for target in TARGETS {
        let mut world = World::with_intake(&[("in/a.txt", b"alpha")]);
        assert_eq!(world.put(target, b"a.txt", &roots).status, 200);
        let before = world.clone();
        let payloads: [&'static [u8]; 3] = [&[0xff], b"a.txt\xff", &[0xe2, 0x82]];
        for payload in payloads {
            assert_eq!(
                world.put(target, payload, &roots),
                Reply {
                    status: 400,
                    body: "Invalid UTF-8 sequence".to_string(),
                    error: Some(ErrorKind::InvalidEncoding),
                }
            );
        }
        assert_eq!(world, before);
    }
}

#[test]
fn no_name_reaches_a_file_outside_the_roots() {
    let roots = Roots::new("in".to_string(), "out".to_string());
    let payloads: [&'static [u8]; 5] =
        [b"../out/a.txt", b"../secret", b"/secret", b"x/../../secret", b"..\\secret"];
    for target in TARGETS {
        let mut world = World::with_intake(&[
            ("secret", b"s"),
            ("/secret", b"s"),
            ("in/../secret", b"s"),
            ("in//secret", b"s"),
            ("in/x/../../secret", b"s"),
            ("in/..\\secret", b"s"),
            ("in/../out/a.txt", b"s"),
        ]);
        world.files.insert("secret".to_string(), b"s".to_vec());
        world.files.insert("out/../secret".to_string(), b"s".to_vec());
        let before = world.clone();
        for payload in payloads {
            let reply = world.put(target, payload, &roots);
            assert_eq!(reply.status, 400);
            assert_eq!(reply.error, Some(ErrorKind::NotFound));
        }
        assert_eq!(world, before);
    }
    let mut world = World::default();
    world.files.insert("out/../secret".to_string(), b"s".to_vec());
    world.files.insert("/secret".to_string(), b"s".to_vec());
    for name in ["../secret", "/secret"] {
        let reply = world.get(StorageTarget::Local, name, &roots);
        assert_eq!(reply.error, Some(ErrorKind::NotFound));
        assert_ne!(reply.body, "s");
    }
}

#[test]
fn a_put_leaves_other_names_alone() {
    let roots = Roots::new("in".to_string(), "out".to_string());
    for target in TARGETS {
        let mut world = World::with_intake(&[("in/a", b"alpha"), ("in/b", b"beta")]);
        assert_eq!(world.put(target, b"a", &roots).status, 200);
        assert_eq!(world.put(target, b"b", &roots).status, 200);
        assert_eq!(world.get(target, "a", &roots), ok("alpha"));
        assert_eq!(world.get(target, "b", &roots), ok("beta"));
    }
}
