//! The requests this crate makes of the storage engine, and their argument
//! lists.

use vstd::prelude::*;

verus! {

/// Name of the storage engine's program.
pub const PROGRAM: &'static str = "zfs";

/// The three kinds of object the engine keeps.
#[derive(Clone, Copy, Debug, PartialEq, Eq, Structural)]
pub enum Kind {
    /// A dataset: the thing that is replicated.
    Filesystem,
    /// An immutable point-in-time copy of a filesystem.
    Snapshot,
    /// A named reference to a point in time that holds no data.
    Bookmark,
}

impl Kind {
    /// The word by which the engine's listing selects this kind.
    pub open spec fn tag(self) -> Seq<char> {
        match self {
            Kind::Filesystem => "filesystem"@,
            Kind::Snapshot => "snapshot"@,
            Kind::Bookmark => "bookmark"@,
        }
    }

    /// The word by which the engine's listing selects this kind.
    pub fn type_str(&self) -> (tag: &'static str)
        ensures
            tag@ == self.tag(),
    {
        match self {
            Kind::Filesystem => "filesystem",
            Kind::Snapshot => "snapshot",
            Kind::Bookmark => "bookmark",
        }
    }
}

/// One request to the storage engine.
#[derive(Clone, Debug, PartialEq, Eq)]
pub enum Command {
    /// List the objects of `kind` that `target` addresses, newest first.
    List { kind: Kind, target: String },
    /// Destroy the object named `target`.
    Destroy { target: String },
    /// Create the bookmark `marker` at the point in time of `origin`.
    Bookmark { origin: String, marker: String },
    /// Send `snapshot` into `destination`: all of it, or what changed since
    /// `reference`.
    Transfer { snapshot: String, reference: Option<String>, destination: String },
}

/// A [`Command`] as a mathematical value.
pub enum CommandView {
    List { kind: Kind, target: Seq<char> },
    Destroy { target: Seq<char> },
    Bookmark { origin: Seq<char>, marker: Seq<char> },
    Transfer { snapshot: Seq<char>, reference: Option<Seq<char>>, destination: Seq<char> },
}

impl View for Command {
    type V = CommandView;

    open spec fn view(&self) -> CommandView {
        match self {
            Command::List { kind, target } => CommandView::List { kind: *kind, target: target@ },
            Command::Destroy { target } => CommandView::Destroy { target: target@ },
            Command::Bookmark { origin, marker } => CommandView::Bookmark {
                origin: origin@,
                marker: marker@,
            },
            Command::Transfer { snapshot, reference, destination } => CommandView::Transfer {
                snapshot: snapshot@,
                reference: match reference {
                    Some(name) => Some(name@),
                    None => None,
                },
                destination: destination@,
            },
        }
    }
}

impl CommandView {
    /// The arguments of the engine invocation that carries out this request.
    /// For a transfer they are those of the sending side; `-i` before a name
    /// asks for the changes since that point only.
    pub open spec fn argv(self) -> Seq<Seq<char>> {
        match self {
            CommandView::List { kind, target } => seq![
                "list"@,
                "-t"@,
                kind.tag(),
                "-H"@,
                "-o"@,
                "name"@,
                "-p"@,
                "-S"@,
                "creation"@,
                target,
            ],
            CommandView::Destroy { target } => seq!["destroy"@, target],
            CommandView::Bookmark { origin, marker } => seq!["bookmark"@, origin, marker],
            CommandView::Transfer { snapshot, reference: None, .. } => seq!["send"@, snapshot],
            CommandView::Transfer { snapshot, reference: Some(base), .. } => seq![
                "send"@,
                "-i"@,
                base,
                snapshot,
            ],
        }
    }

    /// The arguments of the receiving side, which reads what the sending side
    /// writes. Only a transfer has one.
    pub open spec fn receiver_argv(self) -> Option<Seq<Seq<char>>> {
        match self {
            CommandView::Transfer { destination, .. } => Some(seq!["receive"@, destination]),
            _ => None,
        }
    }
}

impl Command {
    /// The arguments to start [`PROGRAM`] with.
    pub fn argv(&self) -> (args: Vec<String>)
        ensures
            args.deep_view() == self@.argv(),
    {
        let mut args: Vec<String> = Vec::new();
        match self {
            Command::List { kind, target } => {
                args.push("list".to_owned());
                args.push("-t".to_owned());
                args.push(kind.type_str().to_owned());
                args.push("-H".to_owned());
                args.push("-o".to_owned());
                args.push("name".to_owned());
                args.push("-p".to_owned());
                args.push("-S".to_owned());
                args.push("creation".to_owned());
                args.push(target.clone());
            },
            Command::Destroy { target } => {
                args.push("destroy".to_owned());
                args.push(target.clone());
            },
            Command::Bookmark { origin, marker } => {
                args.push("bookmark".to_owned());
                args.push(origin.clone());
                args.push(marker.clone());
            },
            Command::Transfer { snapshot, reference, .. } => {
                args.push("send".to_owned());
                match reference {
                    Some(base) => {
                        args.push("-i".to_owned());
                        args.push(base.clone());
                    },
                    None => {},
                }
                args.push(snapshot.clone());
            },
        }
        assert(args.deep_view() =~= self@.argv());
        args
    }

    /// The arguments to start the receiving [`PROGRAM`] with, whose input is
    /// the sending side's output. `None` for a request that is a single
    /// invocation.
    pub fn receiver_argv(&self) -> (args: Option<Vec<String>>)
        ensures
            args.deep_view() == self@.receiver_argv(),
    {
        match self {
            Command::Transfer { destination, .. } => {
                let mut args: Vec<String> = Vec::new();
                args.push("receive".to_owned());
                args.push(destination.clone());
                assert(args.deep_view() =~= seq!["receive"@, destination@]);
                Some(args)
            },
            _ => None,
        }
    }
}

/// The answer that an engine invocation amounts to: its output when it
/// exited with success, else its diagnostic.
pub fn reply_of(success: bool, stdout: String, stderr: String) -> (reply: Result<String, String>)
    ensures
        reply == if success {
            Ok::<String, String>(stdout)
        } else {
            Err::<String, String>(stderr)
        },
{
    if success {
        Ok(stdout)
    } else {
        Err(stderr)
    }
}

/// The answer that two invocations amount to, of which the second read what
/// the first wrote: the second's answer when the first exited with success,
/// else a failure, with the second's diagnostic if it failed too and the
/// first's if it did not.
pub fn reply_of_piped(sent: Result<String, String>, received: Result<String, String>) -> (reply:
    Result<String, String>)
    ensures
        reply == match (sent, received) {
            (Ok(_), _) => received,
            (Err(_), Err(_)) => received,
            (Err(diagnostic), Ok(_)) => Err::<String, String>(diagnostic),
        },
{
    match sent {
        Ok(_) => received,
        Err(diagnostic) => match received {
            Ok(_) => Err(diagnostic),
            Err(later) => Err(later),
        },
    }
}

} // verus!
