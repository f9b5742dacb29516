//! The closed set of failures that a request can end in.

use vstd::prelude::*;
use vstd::string::StringExecFns;

verus! {

/// Why a request could not be answered. Every failure ends the request that
/// produced it; none is retried.
#[derive(Debug, PartialEq, Eq)]
pub enum ResolveError {
    /// No repository is registered under this name.
    UnknownRepo(String),
    /// The reference names no commit of the repository.
    UnknownReference(String),
    /// Some segment of the path has no entry in the tree it is looked up in,
    /// or the path is not a sequence of non-empty segments.
    PathNotFound(String),
    /// A segment of the path exists but is of the wrong kind: a file where a
    /// directory is needed, or a directory where a file is needed.
    PathTypeMismatch(String),
    /// An object that the repository refers to could not be read.
    StoreFailure,
}

/// A `ResolveError` as a mathematical value: the same cases over character
/// sequences.
pub enum Failure {
    UnknownRepo(Seq<char>),
    UnknownReference(Seq<char>),
    PathNotFound(Seq<char>),
    PathTypeMismatch(Seq<char>),
    StoreFailure,
}

impl View for ResolveError {
    type V = Failure;

    open spec fn view(&self) -> Failure {
        match self {
            ResolveError::UnknownRepo(name) => Failure::UnknownRepo(name@),
            ResolveError::UnknownReference(reference) => Failure::UnknownReference(reference@),
            ResolveError::PathNotFound(path) => Failure::PathNotFound(path@),
            ResolveError::PathTypeMismatch(path) => Failure::PathTypeMismatch(path@),
            ResolveError::StoreFailure => Failure::StoreFailure,
        }
    }
}

impl Failure {
    /// The text that describes this failure to a client.
    pub open spec fn message(self) -> Seq<char> {
        match self {
            Failure::UnknownRepo(name) => "No repo found with name '"@ + name + "'"@,
            Failure::UnknownReference(reference) => "revspec '"@ + reference + "' not found"@,
            Failure::PathNotFound(path) => "the path '"@ + path
                + "' does not exist in the given tree"@,
            Failure::PathTypeMismatch(path) => "the path '"@ + path
                + "' is not of the requested kind"@,
            Failure::StoreFailure => "the object store could not be read"@,
        }
    }
}

/// `prefix`, then `middle`, then `suffix`, as one string.
fn quoted(prefix: &str, middle: &str, suffix: &str) -> (text: String)
    ensures
        text@ == prefix@ + middle@ + suffix@,
{
    let mut text = String::from_str(prefix);
    text.append(middle);
    text.append(suffix);
    text
}

impl ResolveError {
    /// The text that describes this failure to a client.
    pub fn message(&self) -> (text: String)
        ensures
            text@ == self@.message(),
    {
        match self {
            ResolveError::UnknownRepo(name) => quoted("No repo found with name '", name.as_str(), "'"),
            ResolveError::UnknownReference(reference) => quoted(
                "revspec '",
                reference.as_str(),
                "' not found",
            ),
            ResolveError::PathNotFound(path) => quoted(
                "the path '",
                path.as_str(),
                "' does not exist in the given tree",
            ),
            ResolveError::PathTypeMismatch(path) => quoted(
                "the path '",
                path.as_str(),
                "' is not of the requested kind",
            ),
            ResolveError::StoreFailure => String::from_str("the object store could not be read"),
        }
    }
}

} // verus!
