//! A model of the storage engine: what it holds, and what each request does
//! to it. Nothing here runs; the model is what the laws of the rotation are
//! stated over.

use crate::command::{CommandView, Kind};
use crate::dataset::Entity;
use crate::lines::lines_of;
use crate::protocol::Reply;
use vstd::prelude::*;

verus! {

/// A bookmark as the engine keeps it: its full name, and the name of the
/// snapshot whose point in time it fixes.
pub struct Mark {
    pub name: Seq<char>,
    pub origin: Seq<char>,
}

/// A transfer that a destination has taken in: the snapshot sent, and the
/// bookmark it was sent relative to, if any.
pub struct Delivery {
    pub snapshot: Seq<char>,
    pub base: Option<Mark>,
    pub destination: Seq<char>,
}

/// What the engine holds. Nothing is assumed of it: it may hold several
/// bookmarks of one name, as a disordered store might.
pub struct Engine {
    /// The filesystems, by name.
    pub filesystems: Seq<Seq<char>>,
    /// The snapshots, newest first.
    pub snapshots: Seq<Entity>,
    /// The bookmarks.
    pub bookmarks: Seq<Mark>,
    /// The transfers taken in so far, oldest first.
    pub deliveries: Seq<Delivery>,
}

impl Engine {
    /// The filesystems called `name`.
    pub open spec fn filesystems_named(self, name: Seq<char>) -> Seq<Seq<char>> {
        self.filesystems.filter(|filesystem: Seq<char>| filesystem == name)
    }

    /// The bookmarks called `name`.
    pub open spec fn bookmarks_named(self, name: Seq<char>) -> Seq<Mark> {
        self.bookmarks.filter(|mark: Mark| mark.name == name)
    }

    /// The bookmarks not called `name`.
    pub open spec fn bookmarks_but(self, name: Seq<char>) -> Seq<Mark> {
        self.bookmarks.filter(|mark: Mark| mark.name != name)
    }

    /// The snapshots called `name`.
    pub open spec fn snapshots_named(self, name: Seq<char>) -> Seq<Entity> {
        self.snapshots.filter(|snapshot: Entity| snapshot.name == name)
    }

    /// The snapshots not called `name`.
    pub open spec fn snapshots_but(self, name: Seq<char>) -> Seq<Entity> {
        self.snapshots.filter(|snapshot: Entity| snapshot.name != name)
    }

    /// The snapshots of the filesystem `fsname`, newest first.
    pub open spec fn snapshots_of(self, fsname: Seq<char>) -> Seq<Entity> {
        self.snapshots.filter(|snapshot: Entity| snapshot.fsname == fsname)
    }

    /// The names that a listing of `kind` under `target` gives: the
    /// filesystems and the bookmarks of that name, the snapshots of that
    /// filesystem.
    pub open spec fn listing(self, kind: Kind, target: Seq<char>) -> Seq<Seq<char>> {
        match kind {
            Kind::Filesystem => self.filesystems_named(target),
            Kind::Snapshot => self.snapshots_of(target).map_values(
                |snapshot: Entity| snapshot.name,
            ),
            Kind::Bookmark => self.bookmarks_named(target).map_values(|mark: Mark| mark.name),
        }
    }

    /// The snapshot whose point in time `origin` fixes: `origin` itself when
    /// it is a snapshot, the one a bookmark of that name was made from when
    /// it is a bookmark.
    pub open spec fn point_of(self, origin: Seq<char>) -> Option<Seq<char>> {
        if self.snapshots_named(origin).len() > 0 {
            Some(origin)
        } else if self.bookmarks_named(origin).len() > 0 {
            Some(self.bookmarks_named(origin)[0].origin)
        } else {
            None
        }
    }

    /// The engine after it has carried out `request`; `None` where it cannot.
    ///
    /// A listing changes nothing. Destroying removes the bookmarks of that
    /// name, or where there is none the snapshots of that name, and cannot be
    /// done where there is neither. A bookmark can be made of an existing
    /// point in time under a name that no bookmark has. A transfer needs its
    /// snapshot and, where it names one, its reference, and adds a delivery.
    pub open spec fn carried_out(self, request: CommandView) -> Option<Engine> {
        match request {
            CommandView::List { .. } => Some(self),
            CommandView::Destroy { target } => {
                if self.bookmarks_named(target).len() > 0 {
                    Some(Engine { bookmarks: self.bookmarks_but(target), ..self })
                } else if self.snapshots_named(target).len() > 0 {
                    Some(Engine { snapshots: self.snapshots_but(target), ..self })
                } else {
                    None
                }
            },
            CommandView::Bookmark { origin, marker } => match self.point_of(origin) {
                Some(point) => {
                    if self.bookmarks_named(marker).len() == 0 {
                        Some(
                            Engine {
                                bookmarks: self.bookmarks.push(Mark { name: marker, origin: point }),
                                ..self
                            },
                        )
                    } else {
                        None
                    }
                },
                None => None,
            },
            CommandView::Transfer { snapshot, reference, destination } => {
                if self.snapshots_named(snapshot).len() == 0 {
                    None
                } else {
                    match reference {
                        None => Some(self.delivered(Delivery { snapshot, base: None, destination })),
                        Some(name) => {
                            if self.bookmarks_named(name).len() > 0 {
                                Some(
                                    self.delivered(
                                        Delivery {
                                            snapshot,
                                            base: Some(self.bookmarks_named(name)[0]),
                                            destination,
                                        },
                                    ),
                                )
                            } else {
                                None
                            }
                        },
                    }
                }
            },
        }
    }

    /// The engine with one more delivery taken in.
    pub open spec fn delivered(self, delivery: Delivery) -> Engine {
        Engine { deliveries: self.deliveries.push(delivery), ..self }
    }

    /// Whether the engine may answer `reply` to `request` and be `after`
    /// afterwards. Any request may fail, and a failed request changes
    /// nothing: a transfer is taken in whole or not at all. An answer of
    /// success means that the request was carried out, and to a listing it
    /// holds the names listed, one per line.
    pub open spec fn answers(self, request: CommandView, reply: Reply, after: Engine) -> bool {
        match reply {
            Err(_) => after == self,
            Ok(output) => {
                &&& self.carried_out(request) == Some(after)
                &&& request matches CommandView::List { kind, target } ==> lines_of(output)
                    == self.listing(kind, target)
            },
        }
    }
}

} // verus!
