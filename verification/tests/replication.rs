use zfs_backup::command::{Command, Kind};
use zfs_backup::dataset::{Bookmark, Filesystem, Snapshot, ZfsThing};
use zfs_backup::protocol::{Unmet, NEW_BM, OLD_BM};
use zfs_backup::replication::{Action, Replication, ReplicationError, Stage};

/// A storage engine in memory that reads the argument lists as the real one
/// does.
struct Store {
    filesystems: Vec<String>,
    /// (filesystem, name), newest first
    snapshots: Vec<(String, String)>,
    /// (name, snapshot it was made from)
    bookmarks: Vec<(String, String)>,
    /// (snapshot, bookmark it was sent relative to, destination)
    deliveries: Vec<(String, Option<(String, String)>, String)>,
    /// requests that fail, by their place in the run, counted from 0
    broken: Vec<usize>,
    log: Vec<Command>,
}

impl Store {
    fn new(source: &str, versions: &[&str]) -> Store {
        Store {
            filesystems: vec![source.to_string()],
            snapshots: versions
                .iter()
                .map(|v| (source.to_string(), format!("{}@{}", source, v)))
                .collect(),
            bookmarks: Vec::new(),
            deliveries: Vec::new(),
            broken: Vec::new(),
            log: Vec::new(),
        }
    }

    fn with_bookmark(mut self, name: &str, origin: &str) -> Store {
        self.bookmarks.push((name.to_string(), origin.to_string()));
        self
    }

    fn breaking(mut self, place: usize) -> Store {
        self.broken.push(place);
        self
    }

    fn named(&self, name: &str) -> Vec<(String, String)> {
        self.bookmarks.iter().filter(|b| b.0 == name).cloned().collect()
    }

    fn lines(names: Vec<String>) -> String {
        names.iter().map(|n| format!("{}\n", n)).collect()
    }

    fn execute(&mut self, request: &Command) -> Result<String, String> {
        let place = self.log.len();
        self.log.push(request.clone());
        if self.broken.contains(&place) {
            return Err(format!("request {} failed", place));
        }
        let args = request.argv();
        match args[0].as_str() {
            "list" => {
                assert_eq!(args.len(), 10);
                assert_eq!(args[1], "-t");
                assert_eq!(&args[3..9], ["-H", "-o", "name", "-p", "-S", "creation"]);
                let target = &args[9];
                let names: Vec<String> = match args[2].as_str() {
                    "filesystem" => {
                        self.filesystems.iter().filter(|f| *f == target).cloned().collect()
                    }
                    "snapshot" => self
                        .snapshots
                        .iter()
                        .filter(|s| &s.0 == target)
                        .map(|s| s.1.clone())
                        .collect(),
                    "bookmark" => self.named(target).into_iter().map(|b| b.0).collect(),
                    other => panic!("unknown kind {}", other),
                };
                Ok(Store::lines(names))
            }
            "destroy" => {
                assert_eq!(args.len(), 2);
                let before = self.bookmarks.len();
                self.bookmarks.retain(|b| b.0 != args[1]);
                if self.bookmarks.len() == before {
                    return Err(format!("could not find any bookmarks matching '{}'", args[1]));
                }
                Ok(String::new())
            }
            "bookmark" => {
                assert_eq!(args.len(), 3);
                if !self.named(&args[2]).is_empty() {
                    return Err(format!("cannot create bookmark '{}': bookmark exists", args[2]));
                }
                let origin = if self.snapshots.iter().any(|s| s.1 == args[1]) {
                    args[1].clone()
                } else if let Some(b) = self.named(&args[1]).first() {
                    b.1.clone()
                } else {
                    return Err(format!("cannot open '{}': dataset does not exist", args[1]));
                };
                self.bookmarks.push((args[2].clone(), origin));
                Ok(String::new())
            }
            "send" => {
                let receiver = request.receiver_argv().expect("a transfer has a receiving side");
                assert_eq!(receiver.len(), 2);
                assert_eq!(receiver[0], "receive");
                let (snapshot, base) = match args.len() {
                    2 => (args[1].clone(), None),
                    4 => {
                        assert_eq!(args[1], "-i");
                        (args[3].clone(), Some(args[2].clone()))
                    }
                    n => panic!("send with {} arguments", n),
                };
                if !self.snapshots.iter().any(|s| s.1 == snapshot) {
                    return Err(format!("cannot open '{}': dataset does not exist", snapshot));
                }
                let base = match base {
                    None => None,
                    Some(name) => match self.named(&name).first() {
                        Some(b) => Some(b.clone()),
                        None => return Err(format!("cannot open '{}'", name)),
                    },
                };
                self.deliveries.push((snapshot, base, receiver[1].clone()));
                Ok(String::new())
            }
            other => panic!("unknown request {}", other),
        }
    }

    /// Runs one replication to its end and gives how it ended.
    fn replicate(&mut self, source: &str, dest: &str) -> (Replication, Action) {
        self.log.clear();
        let (mut run, first) =
            Replication::start(Filesystem::from_str(source), Filesystem::from_str(dest));
        let mut action = Action::Run(first);
        let mut steps = 0;
        while let Action::Run(request) = &action {
            let reply = self.execute(request);
            let (stepped, then) = run.step(reply);
            run = stepped;
            action = then;
            steps += 1;
            assert!(steps <= 9, "a run makes nine requests at most");
        }
        assert!(run.ended());
        (run, action)
    }
}

fn list(kind: Kind, target: &str) -> Command {
    Command::List { kind, target: target.to_string() }
}

fn destroy(target: &str) -> Command {
    Command::Destroy { target: target.to_string() }
}

fn bookmark(origin: &str, marker: &str) -> Command {
    Command::Bookmark { origin: origin.to_string(), marker: marker.to_string() }
}

fn transfer(snapshot: &str, reference: Option<&str>, destination: &str) -> Command {
    Command::Transfer {
        snapshot: snapshot.to_string(),
        reference: reference.map(|r| r.to_string()),
        destination: destination.to_string(),
    }
}

fn pair(a: &str, b: &str) -> (String, String) {
    (a.to_string(), b.to_string())
}

const SRC: &str = "tank/data";
const DST: &str = "backup/data";
const LATEST: &str = "tank/data#latest";
const STAGING: &str = "tank/data#latest_new";

#[test]
fn labels_of_the_two_bookmarks() {
    assert_eq!(OLD_BM, "latest");
    assert_eq!(NEW_BM, "latest_new");
}

#[test]
fn start_lists_the_source_itself() {
    let (run, first) = Replication::start(Filesystem::from_str(SRC), Filesystem::from_str(DST));
    assert_eq!(first, list(Kind::Filesystem, SRC));
    assert_eq!(run.stage(), &Stage::CheckSource);
    assert_eq!(run.source().name(), SRC);
    assert_eq!(run.dest().name(), DST);
    assert!(!run.ended());
}

#[test]
fn first_run_sends_in_full_and_sets_the_reference() {
    let mut store = Store::new(SRC, &["v3", "v2", "v1"]);
    let (run, action) = store.replicate(SRC, DST);
    assert_eq!(action, Action::Finish);
    assert_eq!(run.stage(), &Stage::Completed);
    assert_eq!(
        store.log,
        vec![
            list(Kind::Filesystem, SRC),
            list(Kind::Snapshot, SRC),
            list(Kind::Bookmark, STAGING),
            bookmark("tank/data@v3", STAGING),
            list(Kind::Bookmark, LATEST),
            transfer("tank/data@v3", None, DST),
            bookmark("tank/data@v3", LATEST),
        ]
    );
    assert_eq!(store.deliveries, vec![("tank/data@v3".to_string(), None, DST.to_string())]);
    assert_eq!(store.named(LATEST), vec![pair(LATEST, "tank/data@v3")]);
    assert_eq!(store.named(STAGING), vec![pair(STAGING, "tank/data@v3")]);
}

#[test]
fn end_to_end_two_runs() {
    let mut store = Store::new(SRC, &["v3", "v2", "v1"]);

    let (_, first) = store.replicate(SRC, DST);
    assert_eq!(first, Action::Finish);
    assert_eq!(store.log[5], transfer("tank/data@v3", None, DST));
    assert_eq!(store.named(LATEST), vec![pair(LATEST, "tank/data@v3")]);

    let (run, second) = store.replicate(SRC, DST);
    assert_eq!(second, Action::Finish);
    assert_eq!(run.stage(), &Stage::Completed);
    assert_eq!(
        store.log,
        vec![
            list(Kind::Filesystem, SRC),
            list(Kind::Snapshot, SRC),
            list(Kind::Bookmark, STAGING),
            destroy(STAGING),
            bookmark("tank/data@v3", STAGING),
            list(Kind::Bookmark, LATEST),
            transfer("tank/data@v3", Some(LATEST), DST),
            destroy(LATEST),
            bookmark("tank/data@v3", LATEST),
        ]
    );
    assert_eq!(
        store.deliveries,
        vec![
            ("tank/data@v3".to_string(), None, DST.to_string()),
            ("tank/data@v3".to_string(), Some(pair(LATEST, "tank/data@v3")), DST.to_string()),
        ]
    );
    assert_eq!(store.named(LATEST), vec![pair(LATEST, "tank/data@v3")]);
}

#[test]
fn second_run_after_a_new_snapshot_sends_the_changes() {
    let mut store = Store::new(SRC, &["v3", "v2", "v1"]);
    assert_eq!(store.replicate(SRC, DST).1, Action::Finish);
    store.snapshots.insert(0, pair(SRC, "tank/data@v4"));
    assert_eq!(store.replicate(SRC, DST).1, Action::Finish);
    assert_eq!(
        store.deliveries[1],
        ("tank/data@v4".to_string(), Some(pair(LATEST, "tank/data@v3")), DST.to_string())
    );
    assert_eq!(store.named(LATEST), vec![pair(LATEST, "tank/data@v4")]);
    assert_eq!(store.named(STAGING), vec![pair(STAGING, "tank/data@v4")]);
}

#[test]
fn every_completed_run_leaves_one_reference() {
    let mut store = Store::new(SRC, &["v1"]);
    for round in 0..4 {
        assert_eq!(store.replicate(SRC, DST).1, Action::Finish, "round {}", round);
        assert_eq!(store.named(LATEST).len(), 1, "round {}", round);
        assert_eq!(store.deliveries.len(), round + 1);
        assert_eq!(store.deliveries[round].1.is_some(), round > 0);
    }
}

#[test]
fn duplicate_reference_aborts_before_transfer() {
    let mut store = Store::new(SRC, &["v3", "v2", "v1"])
        .with_bookmark(LATEST, "tank/data@v1")
        .with_bookmark(LATEST, "tank/data@v2");
    let (run, action) = store.replicate(SRC, DST);
    let error = ReplicationError::Cardinality { label: "latest".to_string(), found: 2 };
    assert_eq!(action, Action::Abort(error.clone()));
    assert_eq!(run.stage(), &Stage::Failed(error));
    assert!(store.log.iter().all(|request| !matches!(request, Command::Transfer { .. })));
    assert!(store.deliveries.is_empty());
    assert_eq!(store.named(LATEST).len(), 2);
    assert_eq!(store.log.len(), 5);
}

#[test]
fn duplicate_staging_aborts_the_run() {
    let mut store = Store::new(SRC, &["v1"])
        .with_bookmark(STAGING, "tank/data@v1")
        .with_bookmark(STAGING, "tank/data@v1")
        .with_bookmark(STAGING, "tank/data@v1");
    let before = store.bookmarks.clone();
    let (_, action) = store.replicate(SRC, DST);
    assert_eq!(
        action,
        Action::Abort(ReplicationError::Cardinality { label: "latest_new".to_string(), found: 3 })
    );
    assert_eq!(store.log.len(), 3);
    assert_eq!(store.bookmarks, before);
}

#[test]
fn source_that_is_not_listed_is_refused() {
    let mut store = Store::new("tank/other", &["v1"]);
    let (run, action) = store.replicate(SRC, DST);
    let error = ReplicationError::Precondition(Unmet::SingleSource);
    assert_eq!(action, Action::Abort(error.clone()));
    assert_eq!(run.stage(), &Stage::Failed(error));
    assert_eq!(store.log.len(), 1);
}

#[test]
fn source_check_needs_exactly_one_line_of_that_name() {
    let begin = || Replication::start(Filesystem::from_str(SRC), Filesystem::from_str(DST)).0;
    let refused = Action::Abort(ReplicationError::Precondition(Unmet::SingleSource));
    for output in ["", "\n", "tank/data\ntank/data\n", "tank/data\ntank/data/child\n", "tank", "tank/data2\n", " tank/data\n"] {
        let (run, action) = begin().step(Ok(output.to_string()));
        assert_eq!(action, refused, "output {:?}", output);
        assert!(run.ended());
    }
    for output in ["tank/data\n", "tank/data", "tank/data\r\n"] {
        let (run, action) = begin().step(Ok(output.to_string()));
        assert_eq!(
            action,
            Action::Run(Command::List {
                kind: Kind::Snapshot,
                target: SRC.to_string()
            }),
            "output {:?}",
            output
        );
        assert_eq!(run.stage(), &Stage::FindLatest);
    }
}

#[test]
fn source_without_snapshot_is_refused() {
    let mut store = Store::new(SRC, &[]);
    let (run, action) = store.replicate(SRC, DST);
    let error = ReplicationError::Precondition(Unmet::AnySnapshot);
    assert_eq!(action, Action::Abort(error.clone()));
    assert_eq!(run.stage(), &Stage::Failed(error));
    assert_eq!(store.log.len(), 2);
}

#[test]
fn newest_snapshot_is_the_first_line() {
    let (run, _) = Replication::start(Filesystem::from_str(SRC), Filesystem::from_str(DST));
    let (run, _) = run.step(Ok("tank/data\n".to_string()));
    let (run, action) = run.step(Ok("tank/data@v3\ntank/data@v2\ntank/data@v1\n".to_string()));
    assert_eq!(
        run.stage(),
        &Stage::LookupStaging { latest: Snapshot::fromfs(SRC, "tank/data@v3") }
    );
    assert_eq!(action, Action::Run(list(Kind::Bookmark, STAGING)));
}

#[test]
fn failed_transfer_keeps_the_reference() {
    let mut store = Store::new(SRC, &["v3", "v2"]).with_bookmark(LATEST, "tank/data@v2").breaking(5);
    let (run, action) = store.replicate(SRC, DST);
    assert_eq!(store.log[5], transfer("tank/data@v3", Some(LATEST), DST));
    let error = ReplicationError::EngineInvocation("request 5 failed".to_string());
    assert_eq!(action, Action::Abort(error.clone()));
    assert_eq!(run.stage(), &Stage::Failed(error));
    assert_eq!(store.log.len(), 6);
    assert_eq!(store.named(LATEST), vec![pair(LATEST, "tank/data@v2")]);
    assert!(store.deliveries.is_empty());
}

#[test]
fn run_after_a_failed_transfer_sends_the_same_changes() {
    let mut store = Store::new(SRC, &["v3", "v2"]).with_bookmark(LATEST, "tank/data@v2").breaking(5);
    assert!(matches!(store.replicate(SRC, DST).1, Action::Abort(_)));
    assert!(store.deliveries.is_empty());
    store.broken.clear();
    assert_eq!(store.replicate(SRC, DST).1, Action::Finish);
    assert_eq!(
        store.deliveries,
        vec![("tank/data@v3".to_string(), Some(pair(LATEST, "tank/data@v2")), DST.to_string())]
    );
    assert_eq!(store.named(LATEST), vec![pair(LATEST, "tank/data@v3")]);
}

#[test]
fn failed_full_transfer_sets_no_reference() {
    let mut store = Store::new(SRC, &["v1"]).breaking(5);
    let (_, action) = store.replicate(SRC, DST);
    assert_eq!(
        action,
        Action::Abort(ReplicationError::EngineInvocation("request 5 failed".to_string()))
    );
    assert!(store.named(LATEST).is_empty());
    assert!(store.deliveries.is_empty());
}

#[test]
fn failure_of_any_request_ends_the_run_there() {
    for place in 0..9 {
        let mut store = Store::new(SRC, &["v2", "v1"])
            .with_bookmark(LATEST, "tank/data@v1")
            .with_bookmark(STAGING, "tank/data@v1")
            .breaking(place);
        let (run, action) = store.replicate(SRC, DST);
        let error = ReplicationError::EngineInvocation(format!("request {} failed", place));
        assert_eq!(action, Action::Abort(error.clone()), "place {}", place);
        assert_eq!(run.stage(), &Stage::Failed(error));
        assert_eq!(store.log.len(), place + 1, "nothing is asked after the failure");
        if place <= 6 {
            assert_eq!(store.named(LATEST), vec![pair(LATEST, "tank/data@v1")], "place {}", place);
            assert!(store.deliveries.is_empty());
        } else {
            assert_eq!(store.deliveries.len(), 1);
        }
    }
}

#[test]
fn reference_is_retired_only_after_the_transfer() {
    let mut store = Store::new(SRC, &["v2", "v1"]).with_bookmark(LATEST, "tank/data@v1");
    assert_eq!(store.replicate(SRC, DST).1, Action::Finish);
    let sent = store.log.iter().position(|r| matches!(r, Command::Transfer { .. })).unwrap();
    let retired = store.log.iter().position(|r| *r == destroy(LATEST)).unwrap();
    let set = store.log.iter().position(|r| *r == bookmark("tank/data@v2", LATEST)).unwrap();
    assert!(sent < retired && retired < set);
    assert_eq!(store.log.iter().filter(|r| **r == destroy(LATEST)).count(), 1);
}

#[test]
fn stale_staging_bookmark_is_renewed() {
    let mut store = Store::new(SRC, &["v2", "v1"]).with_bookmark(STAGING, "tank/data@v1");
    assert_eq!(store.replicate(SRC, DST).1, Action::Finish);
    assert_eq!(store.log[3], destroy(STAGING));
    assert_eq!(store.log[4], bookmark("tank/data@v2", STAGING));
    assert_eq!(store.named(STAGING), vec![pair(STAGING, "tank/data@v2")]);
}

#[test]
fn staging_bookmark_does_not_decide_the_transfer() {
    let mut store = Store::new(SRC, &["v2", "v1"]).with_bookmark(STAGING, "tank/data@v1");
    assert_eq!(store.replicate(SRC, DST).1, Action::Finish);
    assert_eq!(store.deliveries, vec![("tank/data@v2".to_string(), None, DST.to_string())]);
}

#[test]
fn the_listed_reference_is_the_one_sent_from_and_destroyed() {
    let (run, _) = Replication::start(Filesystem::from_str(SRC), Filesystem::from_str(DST));
    let (run, _) = run.step(Ok("tank/data\n".to_string()));
    let (run, _) = run.step(Ok("tank/data@v1\n".to_string()));
    let (run, _) = run.step(Ok(String::new()));
    let (run, _) = run.step(Ok(String::new()));
    let (run, action) = run.step(Ok("tank/data#latest\n".to_string()));
    assert_eq!(action, Action::Run(transfer("tank/data@v1", Some(LATEST), DST)));
    assert_eq!(
        run.stage(),
        &Stage::Transfer {
            latest: Snapshot::fromfs(SRC, "tank/data@v1"),
            reference: Some(Bookmark::fromfs(SRC, LATEST)),
        }
    );
    let (run, action) = run.step(Ok(String::new()));
    assert_eq!(action, Action::Run(destroy(LATEST)));
    assert_eq!(run.stage(), &Stage::RetireReference { latest: Snapshot::fromfs(SRC, "tank/data@v1") });
    let (run, action) = run.step(Ok(String::new()));
    assert_eq!(action, Action::Run(bookmark("tank/data@v1", LATEST)));
    assert_eq!(run.stage(), &Stage::Commit { latest: Snapshot::fromfs(SRC, "tank/data@v1") });
    let (run, action) = run.step(Ok(String::new()));
    assert_eq!(action, Action::Finish);
    assert_eq!(run.stage(), &Stage::Completed);
}

#[test]
fn an_ended_run_stays_as_it_is() {
    let mut store = Store::new(SRC, &["v1"]);
    let (run, _) = store.replicate(SRC, DST);
    let (run, action) = run.step(Ok("anything".to_string()));
    assert_eq!((run.stage(), &action), (&Stage::Completed, &Action::Finish));
    let (run, action) = run.step(Err("anything".to_string()));
    assert_eq!((run.stage(), &action), (&Stage::Completed, &Action::Finish));

    let mut store = Store::new(SRC, &[]);
    let (run, _) = store.replicate(SRC, DST);
    let error = ReplicationError::Precondition(Unmet::AnySnapshot);
    let (run, action) = run.step(Ok("tank/data@v1\n".to_string()));
    assert_eq!(action, Action::Abort(error.clone()));
    let (run, action) = run.step(Err("later".to_string()));
    assert_eq!(action, Action::Abort(error.clone()));
    assert_eq!(run.stage(), &Stage::Failed(error));
}

#[test]
fn duplicate_is_equal_to_the_error() {
    let errors = [
        ReplicationError::EngineInvocation("cannot open".to_string()),
        ReplicationError::Cardinality { label: "latest".to_string(), found: 7 },
        ReplicationError::Precondition(Unmet::SingleSource),
        ReplicationError::Precondition(Unmet::AnySnapshot),
    ];
    for error in errors {
        assert_eq!(error.clone(), error);
    }
}
