//! A run played against the engine model: the run asks, the engine answers
//! as [`Engine::answers`] permits, and [`crate::protocol::next`] takes the
//! answer. Nothing here runs; the laws speak of every such play.

use crate::command::{CommandView, Kind};
use crate::dataset::bookmark_name;
use crate::engine::{Delivery, Engine, Mark};
use crate::protocol::{begin, first_request, next, ActionView, Reply, RunView, NEW_BM, OLD_BM};
use vstd::prelude::*;

verus! {

/// A run and the engine at one moment: the run, what it asked last, and the
/// engine as it stands before answering.
pub struct Moment {
    pub run: RunView,
    pub action: ActionView,
    pub engine: Engine,
}

/// One answer of the engine, and the engine after it.
pub struct Exchange {
    pub reply: Reply,
    pub after: Engine,
}

/// The moment after the engine's answer `exchange` has been taken.
pub open spec fn advance(moment: Moment, exchange: Exchange) -> Moment {
    let (run, action) = next(moment.run, exchange.reply);
    Moment { run, action, engine: exchange.after }
}

/// Full name of the reference bookmark of `source`.
pub open spec fn reference_name(source: Seq<char>) -> Seq<char> {
    bookmark_name(source, OLD_BM@)
}

/// Full name of the staging bookmark of `source`.
pub open spec fn staging_name(source: Seq<char>) -> Seq<char> {
    bookmark_name(source, NEW_BM@)
}

/// The two bookmarks of a filesystem have different names.
pub proof fn lemma_names_differ(source: Seq<char>)
    ensures
        reference_name(source) != staging_name(source),
{
    reveal_strlit("latest");
    reveal_strlit("latest_new");
    assert(reference_name(source).len() == source.len() + 1 + 6);
    assert(staging_name(source).len() == source.len() + 1 + 10);
}

/// A run of `source` into `dest` that begins on the engine `first` and takes
/// the answers `trace`, in order.
pub struct Play {
    pub source: Seq<char>,
    pub dest: Seq<char>,
    pub first: Engine,
    pub trace: Seq<Exchange>,
}

impl Play {
    /// The play before its last answer.
    pub open spec fn earlier(self) -> Play {
        Play { trace: self.trace.drop_last(), ..self }
    }

    /// The play with one more answer.
    pub open spec fn taking(self, exchange: Exchange) -> Play {
        Play { trace: self.trace.push(exchange), ..self }
    }

    /// The moment at which the run begins.
    pub open spec fn outset(self) -> Moment {
        Moment {
            run: begin(self.source, self.dest),
            action: ActionView::Run { request: first_request(self.source) },
            engine: self.first,
        }
    }

    /// The moment that the answers lead to.
    pub open spec fn end(self) -> Moment
        decreases self.trace.len(),
    {
        if self.trace.len() == 0 {
            self.outset()
        } else {
            advance(self.earlier().end(), self.trace.last())
        }
    }

    /// Whether the play can happen: each answer is given to a request that
    /// the run has made, and is one that the engine may give.
    pub open spec fn happens(self) -> bool
        decreases self.trace.len(),
    {
        self.trace.len() == 0 || {
            let before = self.earlier().end();
            &&& self.earlier().happens()
            &&& before.action matches ActionView::Run { request }
            &&& before.engine.answers(request, self.trace.last().reply, self.trace.last().after)
        }
    }

    /// One more answer that the engine may give makes a longer play that
    /// happens.
    pub proof fn lemma_taking(self, exchange: Exchange)
        requires
            self.happens(),
            self.end().action matches ActionView::Run { request } && self.end().engine.answers(
                request,
                exchange.reply,
                exchange.after,
            ),
        ensures
            self.taking(exchange).happens(),
            self.taking(exchange).end() == advance(self.end(), exchange),
    {
        assert(self.trace.push(exchange).drop_last() == self.trace);
    }

    /// Whether the run has completed.
    pub open spec fn completed(self) -> bool {
        self.end().run.stage is Completed
    }

    /// Full name of the reference bookmark.
    pub open spec fn reference(self) -> Seq<char> {
        reference_name(self.source)
    }

    /// The reference bookmarks that the engine held when the run began.
    pub open spec fn old_references(self) -> Seq<Mark> {
        self.first.bookmarks_named(self.reference())
    }

    /// The reference bookmarks that the engine holds at the end.
    pub open spec fn references(self) -> Seq<Mark> {
        self.end().engine.bookmarks_named(self.reference())
    }

    /// The newest snapshot that the source had when the run began.
    pub open spec fn newest(self) -> Seq<char> {
        self.first.listing(Kind::Snapshot, self.source)[0]
    }

    /// Whether no transfer has been taken in since the run began.
    pub open spec fn nothing_delivered(self) -> bool {
        self.end().engine.deliveries == self.first.deliveries
    }

    /// The one delivery that the run is to make: the newest snapshot,
    /// relative to the reference bookmark that the engine held, if any.
    pub open spec fn due(self) -> Delivery {
        Delivery {
            snapshot: self.newest(),
            base: if self.old_references().len() == 0 {
                None
            } else {
                Some(self.old_references()[0])
            },
            destination: self.dest,
        }
    }

    /// Whether the delivery that was due, and no other, has been taken in
    /// since the run began.
    pub open spec fn delivered(self) -> bool {
        self.end().engine.deliveries == self.first.deliveries.push(self.due())
    }

    /// The reference bookmark that the run leaves when it completes: it
    /// fixes the newest snapshot.
    pub open spec fn renewed(self) -> Mark {
        Mark { name: self.reference(), origin: self.newest() }
    }

    /// The transfer that the run asks for at the end, if that is what it asks
    /// for.
    pub open spec fn asked_transfer(self) -> Option<CommandView> {
        match self.end().action {
            ActionView::Run { request } => if request is Transfer {
                Some(request)
            } else {
                None
            },
            _ => None,
        }
    }
}

} // verus!
