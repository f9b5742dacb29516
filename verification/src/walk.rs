//! One step of a walk through nested trees: what follows from looking one
//! name up.
//!
//! What a tree holds is read from the repository; what to do with the answer
//! is decided here. `step` is that decision as a mathematical function, and
//! `advance` computes it.

use crate::hash::ObjectId;
use vstd::prelude::*;

verus! {

/// The kind of object that an entry of a tree points to.
#[derive(Debug, Clone, Copy, PartialEq, Eq, Structural)]
pub enum EntryKind {
    /// A file.
    Blob,
    /// A directory.
    Tree,
    /// Anything else, such as the commit of a submodule.
    Other,
}

/// What a request needs to find at the end of its path.
#[derive(Debug, Clone, Copy, PartialEq, Eq, Structural)]
pub enum Wanted {
    /// A file, to read its bytes.
    File,
    /// A directory, to list its names.
    Directory,
}

/// Whether an entry of kind `kind` is what the request is after, when it is
/// found under the last name of the path. A path written with a `/` at its
/// end stands for a directory only.
pub open spec fn accepts(kind: EntryKind, want: Wanted, directory: bool) -> bool {
    match want {
        Wanted::File => kind == EntryKind::Blob && !directory,
        Wanted::Directory => kind == EntryKind::Tree,
    }
}

/// What follows from looking one name up.
pub enum Step {
    /// The entry is a directory and names remain: go on inside it.
    Enter(ObjectId),
    /// The entry is the last one and of the kind that is wanted.
    Arrive(ObjectId),
    /// The tree has no entry of that name.
    Missing,
    /// The entry exists but is of the wrong kind.
    Mismatch,
}

/// A `Step` as a mathematical value.
pub enum StepModel {
    Enter(Seq<u8>),
    Arrive(Seq<u8>),
    Missing,
    Mismatch,
}

impl View for Step {
    type V = StepModel;

    open spec fn view(&self) -> StepModel {
        match self {
            Step::Enter(id) => StepModel::Enter(id@),
            Step::Arrive(id) => StepModel::Arrive(id@),
            Step::Missing => StepModel::Missing,
            Step::Mismatch => StepModel::Mismatch,
        }
    }
}

/// The step that follows from an answer. `found` is the entry under the name
/// that was looked up, if there is one; `last` says whether that name is the
/// last of the path.
///
/// A name with no entry ends the walk as missing. Before the last name only
/// a directory can be entered; a file there is a mismatch, never a directory
/// by courtesy. Under the last name the entry must be of the wanted kind.
pub open spec fn step(
    found: Option<(EntryKind, Seq<u8>)>,
    last: bool,
    want: Wanted,
    directory: bool,
) -> StepModel {
    match found {
        None => StepModel::Missing,
        Some((kind, id)) => if last {
            if accepts(kind, want, directory) {
                StepModel::Arrive(id)
            } else {
                StepModel::Mismatch
            }
        } else {
            if kind == EntryKind::Tree {
                StepModel::Enter(id)
            } else {
                StepModel::Mismatch
            }
        },
    }
}

/// An answer as a mathematical value.
pub open spec fn found_view(found: Option<(EntryKind, ObjectId)>) -> Option<(EntryKind, Seq<u8>)> {
    match found {
        Some((kind, id)) => Some((kind, id@)),
        None => None,
    }
}

/// Decides the step that follows from an answer.
pub fn advance(
    found: Option<(EntryKind, ObjectId)>,
    last: bool,
    want: Wanted,
    directory: bool,
) -> (next: Step)
    ensures
        next@ == step(found_view(found), last, want, directory),
{
    match found {
        None => Step::Missing,
        Some((kind, id)) => {
            if last {
                let accepted = match want {
                    Wanted::File => matches!(kind, EntryKind::Blob) && !directory,
                    Wanted::Directory => matches!(kind, EntryKind::Tree),
                };
                if accepted {
                    Step::Arrive(id)
                } else {
                    Step::Mismatch
                }
            } else {
                match kind {
                    EntryKind::Tree => Step::Enter(id),
                    _ => Step::Mismatch,
                }
            }
        },
    }
}

} // verus!
