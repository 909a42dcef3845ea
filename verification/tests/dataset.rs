use zfs_backup::command::{Command, Kind};
use zfs_backup::dataset::{
    full_bookmark_name, list, listing, Bookmark, Filesystem, Snapshot, ZfsBookmarkable, ZfsThing,
};

#[test]
fn from_str_keeps_the_name() {
    let filesystem = Filesystem::from_str("tank/data");
    assert_eq!(filesystem.name(), "tank/data");
    assert_eq!(filesystem.fsname(), "tank/data");
}

#[test]
fn from_str_takes_any_name() {
    assert_eq!(Filesystem::from_str("").name(), "");
    assert_eq!(Filesystem::from_str("pool/ä b").name(), "pool/ä b");
}

#[test]
fn kinds_of_the_three_things() {
    assert_eq!(Filesystem::kind(), Kind::Filesystem);
    assert_eq!(Snapshot::kind(), Kind::Snapshot);
    assert_eq!(Bookmark::kind(), Kind::Bookmark);
}

#[test]
fn fromfs_of_filesystem_is_from_str() {
    assert_eq!(Filesystem::fromfs("tank/data", "tank/data"), Filesystem::from_str("tank/data"));
}

#[test]
fn fromfs_keeps_owner_and_name() {
    let snapshot = Snapshot::fromfs("tank/data", "tank/data@v1");
    assert_eq!(snapshot.fsname(), "tank/data");
    assert_eq!(snapshot.name(), "tank/data@v1");
    let bookmark = Bookmark::fromfs("tank/data", "tank/data#latest");
    assert_eq!(bookmark.fsname(), "tank/data");
    assert_eq!(bookmark.name(), "tank/data#latest");
}

#[test]
fn full_bookmark_name_joins_with_a_hash() {
    assert_eq!(full_bookmark_name("tank/data", "latest"), "tank/data#latest");
    assert_eq!(full_bookmark_name("", ""), "#");
}

#[test]
fn list_without_child_targets_the_scope() {
    let source = Filesystem::from_str("tank/data");
    assert_eq!(
        list::<Filesystem, Snapshot>(&source, None),
        Command::List { kind: Kind::Snapshot, target: "tank/data".to_string() }
    );
    assert_eq!(
        list::<Filesystem, Filesystem>(&source, None),
        Command::List { kind: Kind::Filesystem, target: "tank/data".to_string() }
    );
}

#[test]
fn list_with_child_targets_the_bookmark_name() {
    let source = Filesystem::from_str("tank/data");
    assert_eq!(
        list::<Filesystem, Bookmark>(&source, Some("latest")),
        Command::List { kind: Kind::Bookmark, target: "tank/data#latest".to_string() }
    );
}

#[test]
fn list_targets_the_name_of_the_scope_not_its_owner() {
    let snapshot = Snapshot::fromfs("tank/data", "tank/data@v1");
    assert_eq!(
        list::<Snapshot, Bookmark>(&snapshot, None),
        Command::List { kind: Kind::Bookmark, target: "tank/data@v1".to_string() }
    );
}

#[test]
fn listing_reads_one_thing_per_line() {
    let source = Filesystem::from_str("tank/data");
    let snapshots: Vec<Snapshot> = listing(&source, "tank/data@v3\ntank/data@v2\ntank/data@v1\n");
    assert_eq!(
        snapshots,
        vec![
            Snapshot::fromfs("tank/data", "tank/data@v3"),
            Snapshot::fromfs("tank/data", "tank/data@v2"),
            Snapshot::fromfs("tank/data", "tank/data@v1"),
        ]
    );
}

#[test]
fn listing_of_no_output_is_empty() {
    let source = Filesystem::from_str("tank/data");
    let bookmarks: Vec<Bookmark> = listing(&source, "");
    assert!(bookmarks.is_empty());
}

#[test]
fn listing_gives_things_the_owner_of_the_scope() {
    let snapshot = Snapshot::fromfs("tank/data", "tank/data@v1");
    let bookmarks: Vec<Bookmark> = listing(&snapshot, "tank/data#a\n");
    assert_eq!(bookmarks, vec![Bookmark::fromfs("tank/data", "tank/data#a")]);
}

#[test]
fn listing_of_the_filesystem_itself() {
    let source = Filesystem::from_str("tank/data");
    let filesystems: Vec<Filesystem> = listing(&source, "tank/data\n");
    assert_eq!(filesystems, vec![Filesystem::from_str("tank/data")]);
}

#[test]
fn destroy_targets_the_full_name() {
    assert_eq!(
        Bookmark::fromfs("tank/data", "tank/data#latest").destroy(),
        Command::Destroy { target: "tank/data#latest".to_string() }
    );
    assert_eq!(
        Snapshot::fromfs("tank/data", "tank/data@v1").destroy(),
        Command::Destroy { target: "tank/data@v1".to_string() }
    );
    assert_eq!(
        Filesystem::from_str("tank/data").destroy(),
        Command::Destroy { target: "tank/data".to_string() }
    );
}

#[test]
fn bookmark_of_a_snapshot() {
    let snapshot = Snapshot::fromfs("tank/data", "tank/data@v3");
    let (request, made) = snapshot.bookmark("latest");
    assert_eq!(
        request,
        Command::Bookmark {
            origin: "tank/data@v3".to_string(),
            marker: "tank/data#latest".to_string(),
        }
    );
    assert_eq!(made, Bookmark::fromfs("tank/data", "tank/data#latest"));
}

#[test]
fn bookmark_of_a_bookmark() {
    let bookmark = Bookmark::fromfs("tank/data", "tank/data#latest");
    let (request, made) = bookmark.bookmark("older");
    assert_eq!(
        request,
        Command::Bookmark {
            origin: "tank/data#latest".to_string(),
            marker: "tank/data#older".to_string(),
        }
    );
    assert_eq!(made, Bookmark::fromfs("tank/data", "tank/data#older"));
}

#[test]
fn send_in_full() {
    let snapshot = Snapshot::fromfs("tank/data", "tank/data@v3");
    let dest = Filesystem::from_str("backup/data");
    assert_eq!(
        snapshot.send(None, &dest),
        Command::Transfer {
            snapshot: "tank/data@v3".to_string(),
            reference: None,
            destination: "backup/data".to_string(),
        }
    );
}

#[test]
fn send_since_a_bookmark() {
    let snapshot = Snapshot::fromfs("tank/data", "tank/data@v3");
    let base = Bookmark::fromfs("tank/data", "tank/data#latest");
    let dest = Filesystem::from_str("backup/data");
    assert_eq!(
        snapshot.send(Some(&base), &dest),
        Command::Transfer {
            snapshot: "tank/data@v3".to_string(),
            reference: Some("tank/data#latest".to_string()),
            destination: "backup/data".to_string(),
        }
    );
}
