//! One replication run, step by step.
//!
//! [`Replication::start`] gives the first request. The caller carries each
//! request out and hands the engine's answer to [`Replication::step`], which
//! gives the next request, until the run finishes or is given up. The run
//! follows [`crate::protocol::next`] exactly.

use crate::command::Command;
use crate::dataset::{list, listing, Bookmark, Filesystem, Snapshot, ZfsBookmarkable, ZfsThing};
use crate::lines::{lines_of, split_lines};
use crate::protocol::{
    answered, begin, first_request, next, ActionView, Failure, Reply, RunView, StageView, Unmet,
    NEW_BM, OLD_BM,
};
use vstd::prelude::*;

verus! {

/// Why a run was given up.
#[derive(Clone, Debug, PartialEq, Eq)]
pub enum ReplicationError {
    /// The engine reported failure; the text is its diagnostic.
    EngineInvocation(String),
    /// `found` bookmarks answer to `label`, where one at most may: an
    /// earlier run left the filesystem in disorder.
    Cardinality { label: String, found: usize },
    /// The source cannot be replicated as it is.
    Precondition(Unmet),
}

impl View for ReplicationError {
    type V = Failure;

    open spec fn view(&self) -> Failure {
        match self {
            ReplicationError::EngineInvocation(diagnostic) => Failure::EngineInvocation {
                diagnostic: diagnostic@,
            },
            ReplicationError::Cardinality { label, found } => Failure::Cardinality {
                label: label@,
                found: *found as nat,
            },
            ReplicationError::Precondition(unmet) => Failure::Precondition { unmet: *unmet },
        }
    }
}

impl ReplicationError {
    /// A second value of the same error.
    fn duplicate(&self) -> (copy: Self)
        ensures
            copy@ == self@,
    {
        match self {
            ReplicationError::EngineInvocation(diagnostic) => ReplicationError::EngineInvocation(
                diagnostic.clone(),
            ),
            ReplicationError::Cardinality { label, found } => ReplicationError::Cardinality {
                label: label.clone(),
                found: *found,
            },
            ReplicationError::Precondition(unmet) => ReplicationError::Precondition(*unmet),
        }
    }
}

/// What the caller is to do next.
#[derive(Clone, Debug, PartialEq, Eq)]
pub enum Action {
    /// Carry out the request and hand its answer to the next step.
    Run(Command),
    /// Nothing is left to do: the run is complete.
    Finish,
    /// Report the error; nothing more will be asked of the engine.
    Abort(ReplicationError),
}

impl View for Action {
    type V = ActionView;

    open spec fn view(&self) -> ActionView {
        match self {
            Action::Run(request) => ActionView::Run { request: request@ },
            Action::Finish => ActionView::Finish,
            Action::Abort(error) => ActionView::Abort { failure: error@ },
        }
    }
}

/// What a run waits for. See [`StageView`] for the stages.
#[derive(Clone, Debug, PartialEq, Eq)]
pub enum Stage {
    CheckSource,
    FindLatest,
    LookupStaging { latest: Snapshot },
    ClearStaging { latest: Snapshot },
    CreateStaging { latest: Snapshot },
    LookupReference { latest: Snapshot },
    Transfer { latest: Snapshot, reference: Option<Bookmark> },
    RetireReference { latest: Snapshot },
    Commit { latest: Snapshot },
    Completed,
    Failed(ReplicationError),
}

impl View for Stage {
    type V = StageView;

    open spec fn view(&self) -> StageView {
        match self {
            Stage::CheckSource => StageView::CheckSource,
            Stage::FindLatest => StageView::FindLatest,
            Stage::LookupStaging { latest } => StageView::LookupStaging {
                latest: latest.entity(),
            },
            Stage::ClearStaging { latest } => StageView::ClearStaging { latest: latest.entity() },
            Stage::CreateStaging { latest } => StageView::CreateStaging {
                latest: latest.entity(),
            },
            Stage::LookupReference { latest } => StageView::LookupReference {
                latest: latest.entity(),
            },
            Stage::Transfer { latest, reference } => StageView::Transfer {
                latest: latest.entity(),
                reference: match reference {
                    Some(base) => Some(base.entity()),
                    None => None,
                },
            },
            Stage::RetireReference { latest } => StageView::RetireReference {
                latest: latest.entity(),
            },
            Stage::Commit { latest } => StageView::Commit { latest: latest.entity() },
            Stage::Completed => StageView::Completed,
            Stage::Failed(error) => StageView::Failed { failure: error@ },
        }
    }
}

/// The engine's answer as a mathematical value.
pub open spec fn reply_view(reply: Result<String, String>) -> Reply {
    match reply {
        Ok(output) => Ok(output@),
        Err(diagnostic) => Err(diagnostic@),
    }
}

/// A replication run of one filesystem into another.
#[derive(Clone, Debug, PartialEq, Eq)]
pub struct Replication {
    source: Filesystem,
    dest: Filesystem,
    stage: Stage,
}

impl View for Replication {
    type V = RunView;

    closed spec fn view(&self) -> RunView {
        RunView {
            source: self.source.entity().name,
            dest: self.dest.entity().name,
            stage: self.stage@,
        }
    }
}

impl Replication {
    /// A run of `source` into `dest`, and the request it begins with.
    pub fn start(source: Filesystem, dest: Filesystem) -> (begun: (Replication, Command))
        ensures
            begun.0@ == begin(source.entity().name, dest.entity().name),
            begun.1@ == first_request(source.entity().name),
    {
        let request = list::<Filesystem, Filesystem>(&source, None);
        (Replication { source, dest, stage: Stage::CheckSource }, request)
    }

    /// The filesystem that is replicated.
    pub fn source(&self) -> (source: &Filesystem)
        ensures
            source.entity().name == self@.source,
    {
        &self.source
    }

    /// The filesystem that receives.
    pub fn dest(&self) -> (dest: &Filesystem)
        ensures
            dest.entity().name == self@.dest,
    {
        &self.dest
    }

    /// What the run waits for.
    pub fn stage(&self) -> (stage: &Stage)
        ensures
            stage@ == self@.stage,
    {
        &self.stage
    }

    /// Whether the run has ended, complete or given up.
    pub fn ended(&self) -> (ended: bool)
        ensures
            ended == self@.ended(),
    {
        match &self.stage {
            Stage::Completed => true,
            Stage::Failed(_) => true,
            _ => false,
        }
    }

    /// Takes the engine's answer to the request the run waits for. Gives the
    /// run as it then stands and what is to be done next.
    pub fn step(self, reply: Result<String, String>) -> (stepped: (Replication, Action))
        ensures
            (stepped.0@, stepped.1@) == next(self@, reply_view(reply)),
    {
        if self.ended() {
            return self.rest();
        }
        match reply {
            Err(diagnostic) => {
                let Replication { source, dest, stage: _ } = self;
                give_up(source, dest, ReplicationError::EngineInvocation(diagnostic))
            },
            Ok(output) => self.answered(output.as_str()),
        }
    }

    /// The step of a run that has ended: it stays as it is.
    fn rest(self) -> (stepped: (Replication, Action))
        requires
            self@.ended(),
        ensures
            stepped.0@ == self@,
            self@.stage is Completed ==> stepped.1@ == ActionView::Finish,
            self@.stage matches StageView::Failed { failure } ==> stepped.1@ == (ActionView::Abort {
                failure,
            }),
    {
        let action = match &self.stage {
            Stage::Failed(error) => Action::Abort(error.duplicate()),
            _ => Action::Finish,
        };
        (self, action)
    }

    /// The step for an answer of success that reads `output`.
    fn answered(self, output: &str) -> (stepped: (Replication, Action))
        requires
            !self@.ended(),
        ensures
            (stepped.0@, stepped.1@) == answered(self@, lines_of(output@)),
    {
        let Replication { source, dest, stage } = self;
        let ghost names = lines_of(output@);
        proof {
            source.lemma_own_filesystem();
        }
        match stage {
            Stage::CheckSource => {
                let listed = split_lines(output);
                let unique = listed.len() == 1 && listed[0] == source.name().to_owned();
                proof {
                    if listed.len() > 0 {
                        assert(names[0] == listed[0]@);
                    }
                    if unique {
                        assert(names =~= seq![source.entity().name]);
                    }
                }
                if unique {
                    let request = list::<Filesystem, Snapshot>(&source, None);
                    (Replication { source, dest, stage: Stage::FindLatest }, Action::Run(request))
                } else {
                    give_up(source, dest, ReplicationError::Precondition(Unmet::SingleSource))
                }
            },
            Stage::FindLatest => {
                let mut snapshots = listing::<Filesystem, Snapshot>(&source, output);
                if snapshots.len() == 0 {
                    give_up(source, dest, ReplicationError::Precondition(Unmet::AnySnapshot))
                } else {
                    let latest = snapshots.swap_remove(0);
                    let request = list::<Filesystem, Bookmark>(&source, Some(NEW_BM));
                    (
                        Replication { source, dest, stage: Stage::LookupStaging { latest } },
                        Action::Run(request),
                    )
                }
            },
            Stage::LookupStaging { latest } => {
                let mut found = listing::<Filesystem, Bookmark>(&source, output);
                if found.len() == 0 {
                    let request = latest.bookmark(NEW_BM).0;
                    (
                        Replication { source, dest, stage: Stage::CreateStaging { latest } },
                        Action::Run(request),
                    )
                } else if found.len() == 1 {
                    let request = found.swap_remove(0).destroy();
                    (
                        Replication { source, dest, stage: Stage::ClearStaging { latest } },
                        Action::Run(request),
                    )
                } else {
                    give_up(
                        source,
                        dest,
                        ReplicationError::Cardinality {
                            label: NEW_BM.to_owned(),
                            found: found.len(),
                        },
                    )
                }
            },
            Stage::ClearStaging { latest } => {
                let request = latest.bookmark(NEW_BM).0;
                (
                    Replication { source, dest, stage: Stage::CreateStaging { latest } },
                    Action::Run(request),
                )
            },
            Stage::CreateStaging { latest } => {
                let request = list::<Filesystem, Bookmark>(&source, Some(OLD_BM));
                (
                    Replication { source, dest, stage: Stage::LookupReference { latest } },
                    Action::Run(request),
                )
            },
            Stage::LookupReference { latest } => {
                let mut found = listing::<Filesystem, Bookmark>(&source, output);
                if found.len() == 0 {
                    let request = latest.send(None, &dest);
                    (
                        Replication {
                            source,
                            dest,
                            stage: Stage::Transfer { latest, reference: None },
                        },
                        Action::Run(request),
                    )
                } else if found.len() == 1 {
                    let base = found.swap_remove(0);
                    let request = latest.send(Some(&base), &dest);
                    (
                        Replication {
                            source,
                            dest,
                            stage: Stage::Transfer { latest, reference: Some(base) },
                        },
                        Action::Run(request),
                    )
                } else {
                    give_up(
                        source,
                        dest,
                        ReplicationError::Cardinality {
                            label: OLD_BM.to_owned(),
                            found: found.len(),
                        },
                    )
                }
            },
            Stage::Transfer { latest, reference } => match reference {
                Some(base) => {
                    let request = base.destroy();
                    (
                        Replication { source, dest, stage: Stage::RetireReference { latest } },
                        Action::Run(request),
                    )
                },
                None => {
                    let request = latest.bookmark(OLD_BM).0;
                    (
                        Replication { source, dest, stage: Stage::Commit { latest } },
                        Action::Run(request),
                    )
                },
            },
            Stage::RetireReference { latest } => {
                let request = latest.bookmark(OLD_BM).0;
                (
                    Replication { source, dest, stage: Stage::Commit { latest } },
                    Action::Run(request),
                )
            },
            Stage::Commit { latest } => (
                Replication { source, dest, stage: Stage::Completed },
                Action::Finish,
            ),
            ended => Replication { source, dest, stage: ended }.rest(),
        }
    }
}

/// The run of `source` into `dest` given up for `error`.
fn give_up(source: Filesystem, dest: Filesystem, error: ReplicationError) -> (stepped: (
    Replication,
    Action,
))
    ensures
        stepped.0@ == (RunView {
            source: source.entity().name,
            dest: dest.entity().name,
            stage: StageView::Failed { failure: error@ },
        }),
        stepped.1@ == (ActionView::Abort { failure: error@ }),
{
    let again = error.duplicate();
    (Replication { source, dest, stage: Stage::Failed(error) }, Action::Abort(again))
}

} // verus!
