//! What holds of every run, whatever the engine holds and wherever it fails.
//!
//! The laws are stated of a [`Play`]: a run that begins on some engine and
//! takes some answers. A play that [`Play::happens`] is one whose answers the
//! engine model permits; the laws hold of all of them.

use crate::command::{CommandView, Kind};
use crate::dataset::Entity;
use crate::engine::{Delivery, Engine, Mark};
use crate::lines::lines_of;
use crate::play::{lemma_names_differ, staging_name, Play};
use crate::protocol::{
    begin, first_request, mark, next, ActionView, Failure, Reply, StageView, Unmet, NEW_BM, OLD_BM,
};
use vstd::prelude::*;

verus! {

/// How many requests a run that waits in `stage` makes at most, the one it
/// waits for included.
pub open spec fn requests_left(stage: StageView) -> nat {
    match stage {
        StageView::CheckSource => 9,
        StageView::FindLatest => 8,
        StageView::LookupStaging { .. } => 7,
        StageView::ClearStaging { .. } => 6,
        StageView::CreateStaging { .. } => 5,
        StageView::LookupReference { .. } => 4,
        StageView::Transfer { .. } => 3,
        StageView::RetireReference { .. } => 2,
        StageView::Commit { .. } => 1,
        StageView::Completed => 0,
        StageView::Failed { .. } => 0,
    }
}

/// The source check lets a run go on if and only if the engine's listing of
/// the source is one line that is the source's own name. An answer of success
/// with anything else, and so with any number of lines but one, gives the run
/// up for the precondition it shows unmet, and a failed listing for the
/// engine's failure.
pub proof fn law_source_is_checked(source: Seq<char>, dest: Seq<char>, reply: Reply)
    ensures
        ({
            let run = begin(source, dest);
            let accepted = reply matches Ok(output) && lines_of(output) == seq![source];
            &&& next(run, reply).0.stage is FindLatest <==> accepted
            &&& accepted ==> next(run, reply) == run.ask(
                StageView::FindLatest,
                CommandView::List { kind: Kind::Snapshot, target: source },
            )
            &&& reply is Ok && !accepted ==> next(run, reply) == run.give_up(
                Failure::Precondition { unmet: Unmet::SingleSource },
            )
            &&& reply matches Ok(output) ==> (lines_of(output).len() != 1 ==> next(run, reply)
                == run.give_up(Failure::Precondition { unmet: Unmet::SingleSource }))
            &&& reply matches Err(diagnostic) ==> next(run, reply) == run.give_up(
                Failure::EngineInvocation { diagnostic },
            )
        }),
{
}

/// A run ends: it makes nine requests at most, each answer brings it nearer
/// to its end, and it asks for something exactly as long as it has not ended.
pub proof fn law_run_ends(play: Play)
    requires
        play.happens(),
    ensures
        play.trace.len() + requests_left(play.end().run.stage) <= 9,
        play.end().action is Run <==> !play.end().run.ended(),
    decreases play.trace.len(),
{
    lemma_kept(play);
    if play.trace.len() > 0 {
        law_run_ends(play.earlier());
    }
}

/// A run that completes leaves exactly one reference bookmark, whatever the
/// engine held before. It fixes the newest snapshot that the source had.
pub proof fn law_completed_run_leaves_one_reference(play: Play)
    requires
        play.happens(),
        play.completed(),
    ensures
        play.references() == seq![play.renewed()],
        play.references().len() == 1,
{
    lemma_kept(play);
}

/// Until a transfer has been taken in, a run leaves the reference bookmarks
/// as they were: wherever it fails before that, and when the transfer itself
/// fails, the next run finds the reference it needs.
pub proof fn law_reference_kept_until_delivery(play: Play)
    requires
        play.happens(),
        play.nothing_delivered(),
    ensures
        play.references() == play.old_references(),
{
    lemma_kept(play);
}

/// A run whose transfer fails is given up for that failure, with nothing
/// delivered and with the reference bookmarks as they were before the run.
pub proof fn law_failed_transfer_keeps_reference(play: Play)
    requires
        play.happens(),
        play.trace.len() > 0,
        play.earlier().end().run.stage is Transfer,
        play.trace.last().reply is Err,
    ensures
        play.end().run.stage == (StageView::Failed {
            failure: Failure::EngineInvocation { diagnostic: play.trace.last().reply->Err_0 },
        }),
        play.nothing_delivered(),
        play.references() == play.old_references(),
{
    lemma_kept(play.earlier());
    lemma_kept(play);
}

/// Where the engine holds no reference bookmark, a run asks for no transfer
/// but that of the newest snapshot in full, and when it completes the
/// destination has taken that in and the engine holds one reference
/// bookmark, which fixes that snapshot.
pub proof fn law_full_transfer_without_reference(play: Play)
    requires
        play.happens(),
        play.old_references().len() == 0,
    ensures
        play.asked_transfer() matches Some(request) ==> {
            &&& request == (CommandView::Transfer {
                snapshot: play.newest(),
                reference: None,
                destination: play.dest,
            })
            &&& request.argv() == seq!["send"@, play.newest()]
        },
        play.completed() ==> {
            &&& play.end().engine.deliveries == play.first.deliveries.push(
                Delivery { snapshot: play.newest(), base: None, destination: play.dest },
            )
            &&& play.references() == seq![play.renewed()]
        },
{
    lemma_kept(play);
}

/// Where the engine holds one reference bookmark, a run asks for no transfer
/// but that of the changes from it to the newest snapshot; the bookmark
/// stands until that transfer has been taken in; and when the run completes
/// the destination has taken those changes in and the engine holds one
/// reference bookmark, a new one, which fixes the newest snapshot.
pub proof fn law_incremental_transfer_with_reference(play: Play)
    requires
        play.happens(),
        play.old_references().len() == 1,
    ensures
        play.asked_transfer() matches Some(request) ==> {
            &&& request == (CommandView::Transfer {
                snapshot: play.newest(),
                reference: Some(play.reference()),
                destination: play.dest,
            })
            &&& request.argv() == seq!["send"@, "-i"@, play.reference(), play.newest()]
        },
        play.nothing_delivered() ==> play.references() == play.old_references(),
        play.completed() ==> {
            &&& play.end().engine.deliveries == play.first.deliveries.push(
                Delivery {
                    snapshot: play.newest(),
                    base: Some(play.old_references()[0]),
                    destination: play.dest,
                },
            )
            &&& play.references() == seq![play.renewed()]
        },
{
    lemma_kept(play);
}

/// After a run that completed, a run of the same source finds exactly one
/// reference bookmark: it is never given up for the number of them, it asks
/// for no transfer but one of the changes since that bookmark, and when it
/// completes it leaves one again. The engine may have changed in between in
/// all but its bookmarks.
pub proof fn law_next_run_finds_one_reference(play: Play, later: Play)
    requires
        play.happens(),
        play.completed(),
        later.happens(),
        later.source == play.source,
        later.first.bookmarks == play.end().engine.bookmarks,
    ensures
        later.old_references() == seq![play.renewed()],
        later.asked_transfer() matches Some(CommandView::Transfer { reference, .. })
            ==> reference == Some(later.reference()),
        later.end().run.stage matches StageView::Failed {
            failure: Failure::Cardinality { label, .. },
        } ==> label != OLD_BM@,
        later.completed() ==> later.references().len() == 1,
{
    lemma_kept(play);
    lemma_kept(later);
}

/// Where the engine holds more than one reference bookmark, a run asks for no
/// transfer, nothing is delivered, and the run does not complete.
pub proof fn law_no_transfer_on_duplicate_reference(play: Play)
    requires
        play.happens(),
        play.old_references().len() >= 2,
    ensures
        play.asked_transfer() is None,
        play.nothing_delivered(),
        !play.completed(),
{
    lemma_kept(play);
}

/// What holds at the end of every play that happens.
spec fn kept(play: Play) -> bool {
    let now = play.end();
    let source = play.source;
    let reference = play.reference();
    let olds = play.old_references();
    let newest = Entity { fsname: source, name: play.newest() };
    let found = play.first.listing(Kind::Snapshot, source).len() > 0;
    let untouched = play.references() == olds && play.nothing_delivered();
    &&& now.run.source == source
    &&& now.run.dest == play.dest
    &&& now.engine.filesystems == play.first.filesystems
    &&& now.engine.snapshots == play.first.snapshots
    &&& !(play.nothing_delivered() && play.delivered())
    &&& match now.run.stage {
        StageView::CheckSource => {
            &&& now.engine == play.first
            &&& now.action == ActionView::Run { request: first_request(source) }
        },
        StageView::FindLatest => {
            &&& now.engine == play.first
            &&& now.action == ActionView::Run {
                request: CommandView::List { kind: Kind::Snapshot, target: source },
            }
        },
        StageView::LookupStaging { latest } => {
            &&& now.engine == play.first
            &&& found
            &&& latest == newest
            &&& now.action == ActionView::Run { request: now.run.lookup(NEW_BM@) }
        },
        StageView::ClearStaging { latest } => {
            &&& now.engine == play.first
            &&& found
            &&& latest == newest
            &&& play.first.bookmarks_named(staging_name(source)).len() == 1
            &&& now.action == ActionView::Run {
                request: CommandView::Destroy { target: staging_name(source) },
            }
        },
        StageView::CreateStaging { latest } => {
            &&& found
            &&& latest == newest
            &&& untouched
            &&& now.action == ActionView::Run { request: mark(latest, NEW_BM@) }
        },
        StageView::LookupReference { latest } => {
            &&& found
            &&& latest == newest
            &&& untouched
            &&& now.action == ActionView::Run { request: now.run.lookup(OLD_BM@) }
        },
        StageView::Transfer { latest, reference: from } => {
            &&& found
            &&& latest == newest
            &&& untouched
            &&& olds.len() <= 1
            &&& from == if olds.len() == 0 {
                None
            } else {
                Some(Entity { fsname: source, name: reference })
            }
            &&& now.action == ActionView::Run { request: now.run.transfer(latest, from) }
        },
        StageView::RetireReference { latest } => {
            &&& found
            &&& latest == newest
            &&& olds.len() == 1
            &&& play.references() == olds
            &&& play.delivered()
            &&& now.action == ActionView::Run {
                request: CommandView::Destroy { target: reference },
            }
        },
        StageView::Commit { latest } => {
            &&& found
            &&& latest == newest
            &&& olds.len() <= 1
            &&& play.references().len() == 0
            &&& play.delivered()
            &&& now.action == ActionView::Run { request: mark(latest, OLD_BM@) }
        },
        StageView::Completed => {
            &&& found
            &&& olds.len() <= 1
            &&& play.references() == seq![play.renewed()]
            &&& play.delivered()
            &&& now.action == ActionView::Finish
        },
        StageView::Failed { failure } => {
            &&& now.action == ActionView::Abort { failure }
            &&& untouched || (play.delivered() && olds.len() <= 1)
            &&& failure matches Failure::Cardinality { label, found: count } ==> (label == OLD_BM@
                ==> count == olds.len() && count >= 2)
        },
    }
}

/// The last answer of a play keeps what is kept.
proof fn lemma_kept_step(play: Play)
    requires
        play.trace.len() > 0,
        play.happens(),
        kept(play.earlier()),
    ensures
        kept(play),
{
    let source = play.source;
    let reference = play.reference();
    let staging = staging_name(source);
    let before = play.earlier().end();
    let engine = before.engine;
    let after = play.trace.last().after;
    lemma_names_differ(source);
    lemma_bookmarks_listed(engine, reference);
    lemma_bookmarks_listed(engine, staging);
    assert(play.first.deliveries.push(play.due()).len() == play.first.deliveries.len() + 1);
    assert(play.earlier().due() == play.due());
    match play.trace.last().reply {
        Err(diagnostic) => {},
        Ok(output) => {
            match before.run.stage {
                StageView::ClearStaging { latest } => {
                    lemma_filter_within(
                        engine.bookmarks,
                        |mark: Mark| mark.name != staging,
                        |mark: Mark| mark.name == reference,
                    );
                },
                StageView::CreateStaging { latest } => {
                    let made = Mark { name: staging, origin: engine.point_of(latest.name)->0 };
                    engine.bookmarks.lemma_filter_push(made, |mark: Mark| mark.name == reference);
                },
                StageView::RetireReference { latest } => {
                    lemma_filter_without(
                        engine.bookmarks,
                        |mark: Mark| mark.name != reference,
                        |mark: Mark| mark.name == reference,
                    );
                },
                StageView::Commit { latest } => {
                    lemma_newest_exists(play.first, source);
                    engine.bookmarks.lemma_filter_push(
                        play.renewed(),
                        |mark: Mark| mark.name == reference,
                    );
                    assert(after.bookmarks_named(reference) =~= seq![play.renewed()]);
                },
                _ => {},
            }
        },
    }
}

/// The end of every play that happens keeps what is kept.
proof fn lemma_kept(play: Play)
    requires
        play.happens(),
    ensures
        kept(play),
    decreases play.trace.len(),
{
    if play.trace.len() > 0 {
        lemma_kept(play.earlier());
        lemma_kept_step(play);
    } else {
        assert(play.first.deliveries.push(play.due()).len() == play.first.deliveries.len() + 1);
    }
}

/// Picking from what was kept gives what picking from all gives, where all
/// that is picked is kept.
proof fn lemma_filter_within<A>(s: Seq<A>, keep: spec_fn(A) -> bool, pick: spec_fn(A) -> bool)
    requires
        forall|a: A| #[trigger] pick(a) ==> keep(a),
    ensures
        s.filter(keep).filter(pick) == s.filter(pick),
    decreases s.len(),
{
    reveal(Seq::filter);
    if s.len() > 0 {
        lemma_filter_within(s.drop_last(), keep, pick);
        if keep(s.last()) {
            s.drop_last().filter(keep).lemma_filter_push(s.last(), pick);
        }
    }
}

/// Picking from what was kept gives nothing, where nothing that is picked is
/// kept.
proof fn lemma_filter_without<A>(s: Seq<A>, keep: spec_fn(A) -> bool, pick: spec_fn(A) -> bool)
    requires
        forall|a: A| #[trigger] pick(a) ==> !keep(a),
    ensures
        s.filter(keep).filter(pick).len() == 0,
    decreases s.len(),
{
    reveal(Seq::filter);
    if s.len() > 0 {
        lemma_filter_without(s.drop_last(), keep, pick);
        if keep(s.last()) {
            s.drop_last().filter(keep).lemma_filter_push(s.last(), pick);
        }
    }
}

/// A listing of the bookmarks called `name` holds that name once for each.
proof fn lemma_bookmarks_listed(engine: Engine, name: Seq<char>)
    ensures
        engine.listing(Kind::Bookmark, name).len() == engine.bookmarks_named(name).len(),
        forall|i: int|
            0 <= i < engine.listing(Kind::Bookmark, name).len() ==> (#[trigger] engine.listing(
                Kind::Bookmark,
                name,
            )[i]) == name,
{
    assert forall|i: int| 0 <= i < engine.bookmarks_named(name).len() implies (
    #[trigger] engine.bookmarks_named(name)[i]).name == name by {
        engine.bookmarks.lemma_filter_pred(|mark: Mark| mark.name == name, i);
    }
}

/// The first snapshot that a listing names is a snapshot of that name.
proof fn lemma_newest_exists(engine: Engine, source: Seq<char>)
    requires
        engine.listing(Kind::Snapshot, source).len() > 0,
    ensures
        engine.snapshots_named(engine.listing(Kind::Snapshot, source)[0]).len() > 0,
{
    let of = |snapshot: Entity| snapshot.fsname == source;
    let newest = engine.snapshots_of(source)[0];
    assert(engine.snapshots.filter(of).contains(newest));
    engine.snapshots.lemma_filter_contains_rev(of, newest);
    let i = choose|i: int| 0 <= i < engine.snapshots.len() && engine.snapshots[i] == newest;
    engine.snapshots.lemma_filter_contains(|snapshot: Entity| snapshot.name == newest.name, i);
}

} // verus!
