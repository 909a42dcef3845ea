//! Filesystems, snapshots and bookmarks, and the requests made about them.

use crate::command::{Command, CommandView, Kind};
use crate::lines::{lines_of, split_lines};
use vstd::prelude::*;
use vstd::string::*;

verus! {

/// What identifies an object of the engine: the filesystem it belongs to and
/// its own full name.
pub struct Entity {
    pub fsname: Seq<char>,
    pub name: Seq<char>,
}

/// Full name of the bookmark `label` of `fsname`.
pub open spec fn bookmark_name(fsname: Seq<char>, label: Seq<char>) -> Seq<char> {
    fsname + seq!['#'] + label
}

/// The name a listing asks for: `name` itself, or its child `childname`.
pub open spec fn list_target(name: Seq<char>, childname: Option<Seq<char>>) -> Seq<char> {
    match childname {
        Some(label) => bookmark_name(name, label),
        None => name,
    }
}

/// Full name of the bookmark `label` of `fsname`.
pub fn full_bookmark_name(fsname: &str, label: &str) -> (full: String)
    ensures
        full@ == bookmark_name(fsname@, label@),
{
    proof {
        reveal_strlit("#");
        assert("#"@ =~= seq!['#']);
    }
    fsname.to_owned().concat("#").concat(label)
}

/// What filesystems, snapshots and bookmarks have in common: a kind, a name,
/// and requests that are the same for all of them.
pub trait ZfsThing: Sized {
    /// The kind of object this type stands for.
    spec fn kind_of() -> Kind;

    /// The object as a mathematical value.
    spec fn entity(&self) -> Entity;

    /// Whether an object of this kind can have that name in that filesystem.
    spec fn admits(fsname: Seq<char>, name: Seq<char>) -> bool;

    /// The kind of object this type stands for.
    fn kind() -> (kind: Kind)
        ensures
            kind == Self::kind_of(),
    ;

    /// The object called `name` that belongs to `fsname`.
    fn fromfs(fsname: &str, name: &str) -> (thing: Self)
        requires
            Self::admits(fsname@, name@),
        ensures
            thing.entity() == (Entity { fsname: fsname@, name: name@ }),
    ;

    /// Full name of the object.
    fn name(&self) -> (name: &str)
        ensures
            name@ == self.entity().name,
    ;

    /// Name of the filesystem the object belongs to.
    fn fsname(&self) -> (fsname: &str)
        ensures
            fsname@ == self.entity().fsname,
    ;

    /// The request that destroys this object.
    fn destroy(&self) -> (request: Command)
        ensures
            request@ == (CommandView::Destroy { target: self.entity().name }),
    {
        Command::Destroy { target: self.name().to_owned() }
    }
}

/// Objects that fix a point in time, of which a bookmark can be made.
pub trait ZfsBookmarkable: ZfsThing {
    /// The request that creates the bookmark `bookmark` of this object's
    /// filesystem at this object's point in time, and the bookmark that
    /// exists once the engine has carried it out.
    fn bookmark(&self, bookmark: &str) -> (made: (Command, Bookmark))
        ensures
            made.0@ == (CommandView::Bookmark {
                origin: self.entity().name,
                marker: bookmark_name(self.entity().fsname, bookmark@),
            }),
            made.1.entity() == (Entity {
                fsname: self.entity().fsname,
                name: bookmark_name(self.entity().fsname, bookmark@),
            }),
    {
        let full_bookmark = full_bookmark_name(self.fsname(), bookmark);
        let request = Command::Bookmark {
            origin: self.name().to_owned(),
            marker: full_bookmark.clone(),
        };
        (request, Bookmark { fsname: self.fsname().to_owned(), name: full_bookmark })
    }
}

/// The request that lists the objects of kind `T` under `scope`: those that
/// `scope` addresses itself, or those that its child `childname` addresses.
pub fn list<S: ZfsThing, T: ZfsThing>(scope: &S, childname: Option<&str>) -> (request: Command)
    ensures
        request@ == (CommandView::List {
            kind: T::kind_of(),
            target: list_target(
                scope.entity().name,
                match childname {
                    Some(label) => Some(label@),
                    None => None,
                },
            ),
        }),
{
    let target = match childname {
        Some(label) => full_bookmark_name(scope.name(), label),
        None => scope.name().to_owned(),
    };
    Command::List { kind: T::kind(), target }
}

/// The objects of kind `T` that the answer to [`list`] names, one per line,
/// in its order. They belong to the filesystem that `scope` belongs to.
pub fn listing<S: ZfsThing, T: ZfsThing>(scope: &S, output: &str) -> (things: Vec<T>)
    requires
        forall|i: int|
            0 <= i < lines_of(output@).len() ==> T::admits(
                scope.entity().fsname,
                #[trigger] lines_of(output@)[i],
            ),
    ensures
        things.len() == lines_of(output@).len(),
        forall|i: int|
            0 <= i < things.len() ==> (#[trigger] things[i]).entity() == (Entity {
                fsname: scope.entity().fsname,
                name: lines_of(output@)[i],
            }),
{
    let names = split_lines(output);
    let mut things: Vec<T> = Vec::new();
    let mut i: usize = 0;
    while i < names.len()
        invariant
            i <= names.len(),
            names.deep_view() == lines_of(output@),
            forall|j: int|
                0 <= j < lines_of(output@).len() ==> T::admits(
                    scope.entity().fsname,
                    #[trigger] lines_of(output@)[j],
                ),
            things.len() == i,
            forall|j: int|
                0 <= j < i ==> (#[trigger] things[j]).entity() == (Entity {
                    fsname: scope.entity().fsname,
                    name: lines_of(output@)[j],
                }),
        decreases names.len() - i,
    {
        assert(names.deep_view()[i as int] == names[i as int]@);
        let thing = T::fromfs(scope.fsname(), names[i].as_str());
        things.push(thing);
        i = i + 1;
    }
    things
}

/// A dataset. It belongs to itself.
#[derive(Clone, Debug, PartialEq, Eq)]
pub struct Filesystem {
    name: String,
}

/// A named reference to a point in time of a filesystem.
#[derive(Clone, Debug, PartialEq, Eq)]
pub struct Bookmark {
    fsname: String,
    name: String,
}

/// An immutable point-in-time copy of a filesystem.
#[derive(Clone, Debug, PartialEq, Eq)]
pub struct Snapshot {
    fsname: String,
    name: String,
}

impl Filesystem {
    /// A handle on the filesystem called `name`. Nothing is asked of the
    /// engine: whether it exists is not known.
    pub fn from_str(name: &str) -> (filesystem: Self)
        ensures
            filesystem.entity() == (Entity { fsname: name@, name: name@ }),
    {
        Filesystem { name: name.to_owned() }
    }

    /// A filesystem belongs to itself.
    pub proof fn lemma_own_filesystem(&self)
        ensures
            self.entity().fsname == self.entity().name,
    {
    }
}

impl ZfsThing for Filesystem {
    open spec fn kind_of() -> Kind {
        Kind::Filesystem
    }

    closed spec fn entity(&self) -> Entity {
        Entity { fsname: self.name@, name: self.name@ }
    }

    open spec fn admits(fsname: Seq<char>, name: Seq<char>) -> bool {
        fsname == name
    }

    fn kind() -> (kind: Kind) {
        Kind::Filesystem
    }

    fn fromfs(fsname: &str, name: &str) -> (thing: Self) {
        Filesystem::from_str(name)
    }

    fn name(&self) -> (name: &str) {
        self.name.as_str()
    }

    fn fsname(&self) -> (fsname: &str) {
        self.name.as_str()
    }
}

impl ZfsThing for Bookmark {
    open spec fn kind_of() -> Kind {
        Kind::Bookmark
    }

    closed spec fn entity(&self) -> Entity {
        Entity { fsname: self.fsname@, name: self.name@ }
    }

    open spec fn admits(fsname: Seq<char>, name: Seq<char>) -> bool {
        true
    }

    fn kind() -> (kind: Kind) {
        Kind::Bookmark
    }

    fn fromfs(fsname: &str, name: &str) -> (thing: Self) {
        Bookmark { fsname: fsname.to_owned(), name: name.to_owned() }
    }

    fn name(&self) -> (name: &str) {
        self.name.as_str()
    }

    fn fsname(&self) -> (fsname: &str) {
        self.fsname.as_str()
    }
}

impl ZfsBookmarkable for Bookmark {

}

impl ZfsThing for Snapshot {
    open spec fn kind_of() -> Kind {
        Kind::Snapshot
    }

    closed spec fn entity(&self) -> Entity {
        Entity { fsname: self.fsname@, name: self.name@ }
    }

    open spec fn admits(fsname: Seq<char>, name: Seq<char>) -> bool {
        true
    }

    fn kind() -> (kind: Kind) {
        Kind::Snapshot
    }

    fn fromfs(fsname: &str, name: &str) -> (thing: Self) {
        Snapshot { fsname: fsname.to_owned(), name: name.to_owned() }
    }

    fn name(&self) -> (name: &str) {
        self.name.as_str()
    }

    fn fsname(&self) -> (fsname: &str) {
        self.fsname.as_str()
    }
}

impl ZfsBookmarkable for Snapshot {

}

impl Snapshot {
    /// The request that sends this snapshot into `dest`: all of it when
    /// `bookmark` is `None`, else what changed since `bookmark`.
    pub fn send(&self, bookmark: Option<&Bookmark>, dest: &Filesystem) -> (request: Command)
        ensures
            request@ == (CommandView::Transfer {
                snapshot: self.entity().name,
                reference: match bookmark {
                    Some(base) => Some(base.entity().name),
                    None => None,
                },
                destination: dest.entity().name,
            }),
    {
        let reference = match bookmark {
            Some(base) => Some(base.name().to_owned()),
            None => None,
        };
        Command::Transfer {
            snapshot: self.name().to_owned(),
            reference,
            destination: dest.name().to_owned(),
        }
    }
}

} // verus!
