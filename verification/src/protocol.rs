//! The bookmark rotation as a mathematical state machine: what one run asks
//! of the engine, in which order, and what each answer leads to.
//!
//! A run checks that the source is a single filesystem, finds its newest
//! snapshot, renews the staging bookmark, looks for the reference bookmark
//! of the previous run, sends the newest snapshot (in full when there is no
//! reference, else the changes since it), and only when that has succeeded
//! retires the old reference and sets the new one. The first answer that is
//! a failure ends the run.

use crate::command::{CommandView, Kind};
use crate::dataset::{bookmark_name, Entity};
use crate::lines::lines_of;
use vstd::prelude::*;

verus! {

/// Label of the staging bookmark, renewed by every run before it sends.
pub const NEW_BM: &'static str = "latest_new";

/// Label of the reference bookmark: the point that the destination holds.
pub const OLD_BM: &'static str = "latest";

/// A precondition of replication that the engine's answer did not meet.
#[derive(Clone, Copy, Debug, PartialEq, Eq, Structural)]
pub enum Unmet {
    /// The source name addresses exactly one filesystem, of that name.
    SingleSource,
    /// The source has a snapshot to replicate.
    AnySnapshot,
}

/// Why a run stopped, as a mathematical value.
pub enum Failure {
    /// The engine reported failure; `diagnostic` is what it said.
    EngineInvocation { diagnostic: Seq<char> },
    /// `found` bookmarks answer to `label`, where one at most may.
    Cardinality { label: Seq<char>, found: nat },
    /// The source cannot be replicated as it is.
    Precondition { unmet: Unmet },
}

/// What the engine answered: its output, or its diagnostic on failure.
pub type Reply = Result<Seq<char>, Seq<char>>;

/// What a run waits for.
pub enum StageView {
    /// The listing of the source filesystem itself.
    CheckSource,
    /// The listing of the source's snapshots.
    FindLatest,
    /// The listing of the staging bookmark.
    LookupStaging { latest: Entity },
    /// The destruction of the stale staging bookmark.
    ClearStaging { latest: Entity },
    /// The creation of the staging bookmark.
    CreateStaging { latest: Entity },
    /// The listing of the reference bookmark.
    LookupReference { latest: Entity },
    /// The transfer of `latest`, relative to `reference` if there is one.
    Transfer { latest: Entity, reference: Option<Entity> },
    /// The destruction of the reference that the transfer was relative to.
    RetireReference { latest: Entity },
    /// The creation of the new reference bookmark.
    Commit { latest: Entity },
    /// Nothing: the run is complete.
    Completed,
    /// Nothing: the run was given up.
    Failed { failure: Failure },
}

/// A run: the filesystem replicated, where to, and how far it has come.
pub struct RunView {
    pub source: Seq<char>,
    pub dest: Seq<char>,
    pub stage: StageView,
}

/// What the caller is to do next.
pub enum ActionView {
    /// Carry out the request and hand its answer to the next step.
    Run { request: CommandView },
    /// Nothing is left to do.
    Finish,
    /// Report the failure; nothing more will be asked of the engine.
    Abort { failure: Failure },
}

impl RunView {
    /// The run in the stage `stage`.
    pub open spec fn at(self, stage: StageView) -> RunView {
        RunView { stage, ..self }
    }

    /// The run goes on: it waits in `stage` for the answer to `request`.
    pub open spec fn ask(self, stage: StageView, request: CommandView) -> (RunView, ActionView) {
        (self.at(stage), ActionView::Run { request })
    }

    /// The run is given up.
    pub open spec fn give_up(self, failure: Failure) -> (RunView, ActionView) {
        (self.at(StageView::Failed { failure }), ActionView::Abort { failure })
    }

    /// The request that looks for the source's bookmark `label`.
    pub open spec fn lookup(self, label: Seq<char>) -> CommandView {
        CommandView::List { kind: Kind::Bookmark, target: bookmark_name(self.source, label) }
    }

    /// The request that sends `latest` to the destination.
    pub open spec fn transfer(self, latest: Entity, reference: Option<Entity>) -> CommandView {
        CommandView::Transfer {
            snapshot: latest.name,
            reference: match reference {
                Some(base) => Some(base.name),
                None => None,
            },
            destination: self.dest,
        }
    }

    /// Whether the run has ended.
    pub open spec fn ended(self) -> bool {
        self.stage is Completed || self.stage is Failed
    }
}

/// The request that makes the bookmark `label` of `latest`.
pub open spec fn mark(latest: Entity, label: Seq<char>) -> CommandView {
    CommandView::Bookmark { origin: latest.name, marker: bookmark_name(latest.fsname, label) }
}

/// A run of `source` to `dest` that has asked nothing yet but [`first_request`].
pub open spec fn begin(source: Seq<char>, dest: Seq<char>) -> RunView {
    RunView { source, dest, stage: StageView::CheckSource }
}

/// What a run asks first: the listing of the source filesystem itself.
pub open spec fn first_request(source: Seq<char>) -> CommandView {
    CommandView::List { kind: Kind::Filesystem, target: source }
}

/// What becomes of `run` when the engine answers `reply` to the request it
/// waits for, and what is to be done next. A run that has ended stays as it
/// is, whatever the answer.
pub open spec fn next(run: RunView, reply: Reply) -> (RunView, ActionView) {
    match run.stage {
        StageView::Completed => (run, ActionView::Finish),
        StageView::Failed { failure } => (run, ActionView::Abort { failure }),
        _ => match reply {
            Err(diagnostic) => run.give_up(Failure::EngineInvocation { diagnostic }),
            Ok(output) => answered(run, lines_of(output)),
        },
    }
}

/// What becomes of a run that has not ended when the engine carries out the
/// request it waits for and answers with the lines `names`.
pub open spec fn answered(run: RunView, names: Seq<Seq<char>>) -> (RunView, ActionView) {
    match run.stage {
        StageView::CheckSource => {
            if names == seq![run.source] {
                run.ask(
                    StageView::FindLatest,
                    CommandView::List { kind: Kind::Snapshot, target: run.source },
                )
            } else {
                run.give_up(Failure::Precondition { unmet: Unmet::SingleSource })
            }
        },
        StageView::FindLatest => {
            if names.len() == 0 {
                run.give_up(Failure::Precondition { unmet: Unmet::AnySnapshot })
            } else {
                let latest = Entity { fsname: run.source, name: names[0] };
                run.ask(StageView::LookupStaging { latest }, run.lookup(NEW_BM@))
            }
        },
        StageView::LookupStaging { latest } => {
            if names.len() == 0 {
                run.ask(StageView::CreateStaging { latest }, mark(latest, NEW_BM@))
            } else if names.len() == 1 {
                run.ask(
                    StageView::ClearStaging { latest },
                    CommandView::Destroy { target: names[0] },
                )
            } else {
                run.give_up(Failure::Cardinality { label: NEW_BM@, found: names.len() })
            }
        },
        StageView::ClearStaging { latest } => run.ask(
            StageView::CreateStaging { latest },
            mark(latest, NEW_BM@),
        ),
        StageView::CreateStaging { latest } => run.ask(
            StageView::LookupReference { latest },
            run.lookup(OLD_BM@),
        ),
        StageView::LookupReference { latest } => {
            if names.len() == 0 {
                run.ask(
                    StageView::Transfer { latest, reference: None },
                    run.transfer(latest, None),
                )
            } else if names.len() == 1 {
                let reference = Some(Entity { fsname: run.source, name: names[0] });
                run.ask(StageView::Transfer { latest, reference }, run.transfer(latest, reference))
            } else {
                run.give_up(Failure::Cardinality { label: OLD_BM@, found: names.len() })
            }
        },
        StageView::Transfer { latest, reference } => match reference {
            Some(base) => run.ask(
                StageView::RetireReference { latest },
                CommandView::Destroy { target: base.name },
            ),
            None => run.ask(StageView::Commit { latest }, mark(latest, OLD_BM@)),
        },
        StageView::RetireReference { latest } => run.ask(
            StageView::Commit { latest },
            mark(latest, OLD_BM@),
        ),
        StageView::Commit { latest } => (run.at(StageView::Completed), ActionView::Finish),
        StageView::Completed => (run, ActionView::Finish),
        StageView::Failed { failure } => (run, ActionView::Abort { failure }),
    }
}

} // verus!
