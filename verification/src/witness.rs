//! Two runs that can happen, and complete: the laws are not empty.
//!
//! The first run begins on an engine that holds one filesystem with one
//! snapshot, the second on what the first has left. The engine answers every
//! request with success.

use crate::command::{CommandView, Kind};
use crate::dataset::Entity;
use crate::engine::{Delivery, Engine, Mark};
use crate::lines::{lemma_line_end, lines_of};
use crate::play::{lemma_names_differ, reference_name, staging_name, Exchange, Moment, Play};
use crate::protocol::{begin, mark, ActionView, StageView, NEW_BM, OLD_BM};
use vstd::prelude::*;

verus! {

/// Whether `name` can stand alone on a line: it is not empty and holds no
/// line feed.
pub open spec fn plain(name: Seq<char>) -> bool {
    name.len() > 0 && forall|i: int| 0 <= i < name.len() ==> name[i] != '\n'
}

/// The bookmark `name` made of the snapshot `version`.
pub open spec fn bookmark_of(name: Seq<char>, version: Seq<char>) -> Mark {
    Mark { name, origin: version }
}

/// An engine that holds the filesystem `source`, its one snapshot `version`,
/// and nothing else.
pub open spec fn fresh(source: Seq<char>, version: Seq<char>) -> Engine {
    Engine {
        filesystems: seq![source],
        snapshots: seq![Entity { fsname: source, name: version }],
        bookmarks: Seq::empty(),
        deliveries: Seq::empty(),
    }
}

/// What a completed run into `dest` makes of a fresh engine: it holds the
/// staging and the reference bookmark of `version`, and `dest` has taken
/// `version` in, in full.
pub open spec fn settled(source: Seq<char>, dest: Seq<char>, version: Seq<char>) -> Engine {
    Engine {
        bookmarks: seq![
            bookmark_of(staging_name(source), version),
            bookmark_of(reference_name(source), version),
        ],
        deliveries: seq![Delivery { snapshot: version, base: None, destination: dest }],
        ..fresh(source, version)
    }
}

/// On an engine that holds one filesystem with one snapshot and nothing
/// else, a run to which the engine answers every request with success is one
/// that can happen. It completes with its seventh answer and leaves the
/// engine settled.
pub proof fn law_first_run_can_complete(source: Seq<char>, dest: Seq<char>, version: Seq<char>)
    -> (play: Play)
    requires
        plain(source),
        plain(version),
    ensures
        play.source == source,
        play.dest == dest,
        play.first == fresh(source, version),
        play.trace.len() == 7,
        play.happens(),
        play.completed(),
        play.end().engine == settled(source, dest, version),
{
    let latest = Entity { fsname: source, name: version };
    let sent = supplied(source, dest, version);
    let done = settled(source, dest, version);
    let asked = lemma_first_run_stages(source, dest, version);
    lemma_staged(source, dest, version);
    lemma_supplied(source, dest, version);
    asked.lemma_taking(silent(sent));
    let marking = asked.taking(silent(sent));
    assert(marking.end() == waiting(
        source,
        dest,
        StageView::Commit { latest },
        mark(latest, OLD_BM@),
        sent,
    ));
    marking.lemma_taking(silent(done));
    marking.taking(silent(done))
}

/// On what a first run leaves of a fresh engine, a second run to which the
/// engine answers every request with success is one that can happen. It
/// completes with its ninth answer, and the destination has then taken in
/// the snapshot in full and the changes since the reference bookmark of the
/// first run.
pub proof fn law_second_run_can_complete(source: Seq<char>, dest: Seq<char>, version: Seq<char>)
    -> (play: Play)
    requires
        plain(source),
        plain(version),
    ensures
        play.source == source,
        play.dest == dest,
        play.first == settled(source, dest, version),
        play.trace.len() == 9,
        play.happens(),
        play.completed(),
        play.end().engine.deliveries == seq![
            Delivery { snapshot: version, base: None, destination: dest },
            Delivery {
                snapshot: version,
                base: Some(bookmark_of(reference_name(source), version)),
                destination: dest,
            },
        ],
{
    let latest = Entity { fsname: source, name: version };
    let sent = resupplied(source, dest, version);
    let bare = retired(source, dest, version);
    let done = resettled(source, dest, version);
    let asked = lemma_second_run_stages(source, dest, version);
    lemma_renewed(source, dest, version);
    lemma_resupplied(source, dest, version);
    lemma_retired(source, dest, version);
    asked.lemma_taking(silent(sent));
    let retiring = asked.taking(silent(sent));
    assert(retiring.end() == waiting(
        source,
        dest,
        StageView::RetireReference { latest },
        CommandView::Destroy { target: reference_name(source) },
        sent,
    ));
    retiring.lemma_taking(silent(bare));
    let marking = retiring.taking(silent(bare));
    assert(marking.end() == waiting(
        source,
        dest,
        StageView::Commit { latest },
        mark(latest, OLD_BM@),
        bare,
    ));
    marking.lemma_taking(silent(done));
    marking.taking(silent(done))
}

/// A fresh engine with the staging bookmark of `version`.
spec fn staged(source: Seq<char>, version: Seq<char>) -> Engine {
    Engine {
        bookmarks: seq![bookmark_of(staging_name(source), version)],
        ..fresh(source, version)
    }
}

/// The engine of [`staged`] after `version` has been sent in full to `dest`.
spec fn supplied(source: Seq<char>, dest: Seq<char>, version: Seq<char>) -> Engine {
    Engine {
        deliveries: seq![Delivery { snapshot: version, base: None, destination: dest }],
        ..staged(source, version)
    }
}

/// A settled engine without its staging bookmark.
spec fn cleared(source: Seq<char>, dest: Seq<char>, version: Seq<char>) -> Engine {
    Engine {
        bookmarks: seq![bookmark_of(reference_name(source), version)],
        ..settled(source, dest, version)
    }
}

/// The engine of [`cleared`] with a new staging bookmark.
spec fn renewed(source: Seq<char>, dest: Seq<char>, version: Seq<char>) -> Engine {
    Engine {
        bookmarks: seq![
            bookmark_of(reference_name(source), version),
            bookmark_of(staging_name(source), version),
        ],
        ..settled(source, dest, version)
    }
}

/// The engine of [`renewed`] after the changes since the reference bookmark
/// have been sent to `dest`.
spec fn resupplied(source: Seq<char>, dest: Seq<char>, version: Seq<char>) -> Engine {
    Engine {
        deliveries: seq![
            Delivery { snapshot: version, base: None, destination: dest },
            Delivery {
                snapshot: version,
                base: Some(bookmark_of(reference_name(source), version)),
                destination: dest,
            },
        ],
        ..renewed(source, dest, version)
    }
}

/// The engine of [`resupplied`] without its reference bookmark.
spec fn retired(source: Seq<char>, dest: Seq<char>, version: Seq<char>) -> Engine {
    Engine {
        bookmarks: seq![bookmark_of(staging_name(source), version)],
        ..resupplied(source, dest, version)
    }
}

/// The engine of [`retired`] with a new reference bookmark.
spec fn resettled(source: Seq<char>, dest: Seq<char>, version: Seq<char>) -> Engine {
    Engine {
        bookmarks: settled(source, dest, version).bookmarks,
        ..resupplied(source, dest, version)
    }
}

/// The run of `source` into `dest` that waits in `stage` for the answer of
/// `engine` to `request`.
spec fn waiting(
    source: Seq<char>,
    dest: Seq<char>,
    stage: StageView,
    request: CommandView,
    engine: Engine,
) -> Moment {
    Moment { run: begin(source, dest).at(stage), action: ActionView::Run { request }, engine }
}

/// The answer of success that reads `output` and leaves the engine as it is.
spec fn telling(output: Seq<char>, engine: Engine) -> Exchange {
    Exchange { reply: Ok(output), after: engine }
}

/// The answer of success that reads nothing and leaves the engine `after`.
spec fn silent(after: Engine) -> Exchange {
    Exchange { reply: Ok(Seq::empty()), after }
}

/// A plain name is one line; no text is no line.
proof fn lemma_one_line(name: Seq<char>)
    requires
        plain(name),
    ensures
        lines_of(name) == seq![name],
        lines_of(Seq::<char>::empty()) == Seq::<Seq<char>>::empty(),
{
    lemma_line_end(name, name.len() as int);
}

/// The bookmark names of a plain filesystem name are plain.
proof fn lemma_plain_names(source: Seq<char>)
    requires
        plain(source),
    ensures
        plain(staging_name(source)),
        plain(reference_name(source)),
{
    reveal_strlit("latest");
    reveal_strlit("latest_new");
    let old = OLD_BM@;
    let new = NEW_BM@;
    assert(old.len() == 6 && new.len() == 10);
    assert(old[0] != '\n' && old[1] != '\n' && old[2] != '\n' && old[3] != '\n' && old[4] != '\n'
        && old[5] != '\n');
    assert(new[0] != '\n' && new[1] != '\n' && new[2] != '\n' && new[3] != '\n' && new[4] != '\n'
        && new[5] != '\n' && new[6] != '\n' && new[7] != '\n' && new[8] != '\n' && new[9] != '\n');
}

/// Picking by name from no bookmark, from one and from two.
proof fn lemma_pick(a: Mark, b: Mark, name: Seq<char>)
    ensures
        Seq::<Mark>::empty().filter(|mark: Mark| mark.name == name) == Seq::<Mark>::empty(),
        seq![a].filter(|mark: Mark| mark.name == name) == if a.name == name {
            seq![a]
        } else {
            Seq::<Mark>::empty()
        },
        seq![a, b].filter(|mark: Mark| mark.name == name) == seq![a].filter(
            |mark: Mark| mark.name == name,
        ) + seq![b].filter(|mark: Mark| mark.name == name),
        seq![a, b].filter(|mark: Mark| mark.name != name) == if a.name != name {
            seq![a]
        } else {
            Seq::<Mark>::empty()
        } + if b.name != name {
            seq![b]
        } else {
            Seq::<Mark>::empty()
        },
{
    let is = |mark: Mark| mark.name == name;
    let is_not = |mark: Mark| mark.name != name;
    let none = Seq::<Mark>::empty();
    reveal(Seq::filter);
    assert(seq![a] =~= none.push(a));
    assert(seq![a, b] =~= seq![a].push(b));
    none.lemma_filter_push(a, is);
    none.lemma_filter_push(a, is_not);
    seq![a].lemma_filter_push(b, is);
    seq![a].lemma_filter_push(b, is_not);
    assert(seq![b] =~= none.push(b));
    none.lemma_filter_push(b, is);
}

/// What an engine with the one filesystem and its one snapshot lists, whatever
/// else it holds.
proof fn lemma_one_snapshot(engine: Engine, source: Seq<char>, version: Seq<char>)
    requires
        engine.filesystems == fresh(source, version).filesystems,
        engine.snapshots == fresh(source, version).snapshots,
    ensures
        engine.listing(Kind::Filesystem, source) == seq![source],
        engine.listing(Kind::Snapshot, source) == seq![version],
        engine.point_of(version) == Some(version),
        engine.snapshots_named(version).len() == 1,
{
    let latest = Entity { fsname: source, name: version };
    let none = Seq::<Entity>::empty();
    reveal_with_fuel(Seq::filter, 2);
    assert(engine.filesystems.drop_last() =~= Seq::<Seq<char>>::empty());
    assert(engine.filesystems_named(source) =~= seq![source]);
    assert(engine.snapshots =~= none.push(latest));
    none.lemma_filter_push(latest, |snapshot: Entity| snapshot.fsname == source);
    none.lemma_filter_push(latest, |snapshot: Entity| snapshot.name == version);
    assert(engine.listing(Kind::Snapshot, source) =~= seq![version]);
}

/// A fresh engine lists no staging bookmark and can make one.
proof fn lemma_fresh(source: Seq<char>, dest: Seq<char>, version: Seq<char>)
    ensures
        fresh(source, version).listing(Kind::Bookmark, staging_name(source)) == Seq::<
            Seq<char>,
        >::empty(),
        fresh(source, version).carried_out(
            mark(Entity { fsname: source, name: version }, NEW_BM@),
        ) == Some(staged(source, version)),
{
    let first = fresh(source, version);
    let made = bookmark_of(staging_name(source), version);
    lemma_one_snapshot(first, source, version);
    lemma_pick(made, made, staging_name(source));
    assert(first.listing(Kind::Bookmark, staging_name(source)) =~= Seq::<Seq<char>>::empty());
    assert(first.bookmarks.push(made) =~= staged(source, version).bookmarks);
}

/// A staged engine lists no reference bookmark and can send in full.
proof fn lemma_staged(source: Seq<char>, dest: Seq<char>, version: Seq<char>)
    ensures
        staged(source, version).listing(Kind::Bookmark, reference_name(source)) == Seq::<
            Seq<char>,
        >::empty(),
        staged(source, version).carried_out(
            begin(source, dest).transfer(Entity { fsname: source, name: version }, None),
        ) == Some(supplied(source, dest, version)),
{
    let engine = staged(source, version);
    let made = bookmark_of(staging_name(source), version);
    lemma_names_differ(source);
    lemma_one_snapshot(engine, source, version);
    lemma_pick(made, made, reference_name(source));
    assert(engine.listing(Kind::Bookmark, reference_name(source)) =~= Seq::<Seq<char>>::empty());
    assert(engine.deliveries.push(Delivery { snapshot: version, base: None, destination: dest })
        =~= supplied(source, dest, version).deliveries);
}

/// A supplied engine can make the reference bookmark.
proof fn lemma_supplied(source: Seq<char>, dest: Seq<char>, version: Seq<char>)
    ensures
        supplied(source, dest, version).carried_out(
            mark(Entity { fsname: source, name: version }, OLD_BM@),
        ) == Some(settled(source, dest, version)),
{
    let engine = supplied(source, dest, version);
    let made = bookmark_of(staging_name(source), version);
    lemma_names_differ(source);
    lemma_one_snapshot(engine, source, version);
    lemma_pick(made, made, reference_name(source));
    assert(engine.bookmarks.push(bookmark_of(reference_name(source), version)) =~= settled(
        source,
        dest,
        version,
    ).bookmarks);
}

/// A settled engine lists one staging bookmark and can destroy it.
proof fn lemma_settled(source: Seq<char>, dest: Seq<char>, version: Seq<char>)
    ensures
        settled(source, dest, version).listing(Kind::Bookmark, staging_name(source)) == seq![
            staging_name(source),
        ],
        settled(source, dest, version).carried_out(
            CommandView::Destroy { target: staging_name(source) },
        ) == Some(cleared(source, dest, version)),
{
    let engine = settled(source, dest, version);
    let stale = bookmark_of(staging_name(source), version);
    let base = bookmark_of(reference_name(source), version);
    lemma_names_differ(source);
    lemma_pick(stale, base, staging_name(source));
    lemma_pick(base, base, staging_name(source));
    assert(engine.bookmarks_named(staging_name(source)) =~= seq![stale]);
    assert(engine.listing(Kind::Bookmark, staging_name(source)) =~= seq![staging_name(source)]);
    assert(engine.bookmarks_but(staging_name(source)) =~= cleared(source, dest, version).bookmarks);
}

/// A cleared engine can make the staging bookmark.
proof fn lemma_cleared(source: Seq<char>, dest: Seq<char>, version: Seq<char>)
    ensures
        cleared(source, dest, version).carried_out(
            mark(Entity { fsname: source, name: version }, NEW_BM@),
        ) == Some(renewed(source, dest, version)),
{
    let engine = cleared(source, dest, version);
    let base = bookmark_of(reference_name(source), version);
    lemma_names_differ(source);
    lemma_one_snapshot(engine, source, version);
    lemma_pick(base, base, staging_name(source));
    assert(engine.bookmarks.push(bookmark_of(staging_name(source), version)) =~= renewed(
        source,
        dest,
        version,
    ).bookmarks);
}

/// A renewed engine lists one reference bookmark and can send the changes
/// since it.
proof fn lemma_renewed(source: Seq<char>, dest: Seq<char>, version: Seq<char>)
    ensures
        renewed(source, dest, version).listing(Kind::Bookmark, reference_name(source)) == seq![
            reference_name(source),
        ],
        renewed(source, dest, version).carried_out(
            begin(source, dest).transfer(
                Entity { fsname: source, name: version },
                Some(Entity { fsname: source, name: reference_name(source) }),
            ),
        ) == Some(resupplied(source, dest, version)),
{
    let engine = renewed(source, dest, version);
    let stale = bookmark_of(staging_name(source), version);
    let base = bookmark_of(reference_name(source), version);
    lemma_names_differ(source);
    lemma_one_snapshot(engine, source, version);
    lemma_pick(base, stale, reference_name(source));
    lemma_pick(stale, stale, reference_name(source));
    assert(engine.bookmarks_named(reference_name(source)) =~= seq![base]);
    assert(engine.listing(Kind::Bookmark, reference_name(source)) =~= seq![
        reference_name(source),
    ]);
    assert(engine.deliveries.push(
        Delivery { snapshot: version, base: Some(base), destination: dest },
    ) =~= resupplied(source, dest, version).deliveries);
}

/// A resupplied engine can destroy the reference bookmark.
proof fn lemma_resupplied(source: Seq<char>, dest: Seq<char>, version: Seq<char>)
    ensures
        resupplied(source, dest, version).carried_out(
            CommandView::Destroy { target: reference_name(source) },
        ) == Some(retired(source, dest, version)),
{
    let engine = resupplied(source, dest, version);
    let stale = bookmark_of(staging_name(source), version);
    let base = bookmark_of(reference_name(source), version);
    lemma_names_differ(source);
    lemma_pick(base, stale, reference_name(source));
    lemma_pick(stale, stale, reference_name(source));
    assert(engine.bookmarks_named(reference_name(source)) =~= seq![base]);
    assert(engine.bookmarks_but(reference_name(source)) =~= retired(
        source,
        dest,
        version,
    ).bookmarks);
}

/// A retired engine can make the reference bookmark.
proof fn lemma_retired(source: Seq<char>, dest: Seq<char>, version: Seq<char>)
    ensures
        retired(source, dest, version).carried_out(
            mark(Entity { fsname: source, name: version }, OLD_BM@),
        ) == Some(resettled(source, dest, version)),
{
    let engine = retired(source, dest, version);
    let stale = bookmark_of(staging_name(source), version);
    lemma_names_differ(source);
    lemma_one_snapshot(engine, source, version);
    lemma_pick(stale, stale, reference_name(source));
    assert(engine.bookmarks.push(bookmark_of(reference_name(source), version)) =~= resettled(
        source,
        dest,
        version,
    ).bookmarks);
}

/// The first two answers of either run: the source is one filesystem, and
/// `version` is its newest snapshot.
proof fn lemma_run_looks(first: Engine, source: Seq<char>, dest: Seq<char>, version: Seq<char>)
    -> (play: Play)
    requires
        plain(source),
        plain(version),
        first.filesystems == fresh(source, version).filesystems,
        first.snapshots == fresh(source, version).snapshots,
    ensures
        play.source == source,
        play.dest == dest,
        play.first == first,
        play.trace.len() == 2,
        play.happens(),
        play.end() == waiting(
            source,
            dest,
            StageView::LookupStaging { latest: Entity { fsname: source, name: version } },
            begin(source, dest).lookup(NEW_BM@),
            first,
        ),
{
    lemma_one_line(source);
    lemma_one_line(version);
    lemma_one_snapshot(first, source, version);
    let begun = Play { source, dest, first, trace: Seq::empty() };
    begun.lemma_taking(telling(source, first));
    let checked = begun.taking(telling(source, first));
    checked.lemma_taking(telling(version, first));
    checked.taking(telling(version, first))
}

/// The first five answers of the first run: there is no staging bookmark,
/// one is made, and there is no reference bookmark.
proof fn lemma_first_run_stages(source: Seq<char>, dest: Seq<char>, version: Seq<char>) -> (play:
    Play)
    requires
        plain(source),
        plain(version),
    ensures
        play.source == source,
        play.dest == dest,
        play.first == fresh(source, version),
        play.trace.len() == 5,
        play.happens(),
        play.end() == waiting(
            source,
            dest,
            StageView::Transfer {
                latest: Entity { fsname: source, name: version },
                reference: None,
            },
            begin(source, dest).transfer(Entity { fsname: source, name: version }, None),
            staged(source, version),
        ),
{
    let first = fresh(source, version);
    let kept = staged(source, version);
    let latest = Entity { fsname: source, name: version };
    lemma_one_line(source);
    lemma_fresh(source, dest, version);
    lemma_staged(source, dest, version);
    let looked = lemma_run_looks(first, source, dest, version);
    looked.lemma_taking(silent(first));
    let making = looked.taking(silent(first));
    assert(making.end() == waiting(
        source,
        dest,
        StageView::CreateStaging { latest },
        mark(latest, NEW_BM@),
        first,
    ));
    making.lemma_taking(silent(kept));
    let made = making.taking(silent(kept));
    assert(made.end() == waiting(
        source,
        dest,
        StageView::LookupReference { latest },
        begin(source, dest).lookup(OLD_BM@),
        kept,
    ));
    made.lemma_taking(silent(kept));
    made.taking(silent(kept))
}

/// The first four answers of the second run: there is one staging bookmark,
/// and it is destroyed.
proof fn lemma_second_run_clears(source: Seq<char>, dest: Seq<char>, version: Seq<char>) -> (play:
    Play)
    requires
        plain(source),
        plain(version),
    ensures
        play.source == source,
        play.dest == dest,
        play.first == settled(source, dest, version),
        play.trace.len() == 4,
        play.happens(),
        play.end() == waiting(
            source,
            dest,
            StageView::CreateStaging { latest: Entity { fsname: source, name: version } },
            mark(Entity { fsname: source, name: version }, NEW_BM@),
            cleared(source, dest, version),
        ),
{
    let first = settled(source, dest, version);
    let latest = Entity { fsname: source, name: version };
    let staging = staging_name(source);
    lemma_plain_names(source);
    lemma_one_line(staging);
    lemma_settled(source, dest, version);
    let looked = lemma_run_looks(first, source, dest, version);
    looked.lemma_taking(telling(staging, first));
    let clearing = looked.taking(telling(staging, first));
    assert(clearing.end() == waiting(
        source,
        dest,
        StageView::ClearStaging { latest },
        CommandView::Destroy { target: staging },
        first,
    ));
    clearing.lemma_taking(silent(cleared(source, dest, version)));
    clearing.taking(silent(cleared(source, dest, version)))
}

/// The first six answers of the second run: after the old staging bookmark
/// a new one is made, and there is one reference bookmark.
proof fn lemma_second_run_stages(source: Seq<char>, dest: Seq<char>, version: Seq<char>) -> (play:
    Play)
    requires
        plain(source),
        plain(version),
    ensures
        play.source == source,
        play.dest == dest,
        play.first == settled(source, dest, version),
        play.trace.len() == 6,
        play.happens(),
        play.end() == waiting(
            source,
            dest,
            StageView::Transfer {
                latest: Entity { fsname: source, name: version },
                reference: Some(Entity { fsname: source, name: reference_name(source) }),
            },
            begin(source, dest).transfer(
                Entity { fsname: source, name: version },
                Some(Entity { fsname: source, name: reference_name(source) }),
            ),
            renewed(source, dest, version),
        ),
{
    let latest = Entity { fsname: source, name: version };
    let reference = reference_name(source);
    let kept = renewed(source, dest, version);
    lemma_plain_names(source);
    lemma_one_line(reference);
    lemma_cleared(source, dest, version);
    lemma_renewed(source, dest, version);
    let making = lemma_second_run_clears(source, dest, version);
    making.lemma_taking(silent(kept));
    let made = making.taking(silent(kept));
    assert(made.end() == waiting(
        source,
        dest,
        StageView::LookupReference { latest },
        begin(source, dest).lookup(OLD_BM@),
        kept,
    ));
    made.lemma_taking(telling(reference, kept));
    made.taking(telling(reference, kept))
}

} // verus!
