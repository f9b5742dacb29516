//! The three operations on a repository: read a file, list a directory,
//! resolve a reference.
//!
//! The resolver decides; this module asks the repository what the resolver
//! wants to know, through `git2`, and hands each answer back.

use crate::error::{Failure, ResolveError};
use crate::hash::{hex_text, is_hash_text, lemma_hex_text_shape, ObjectId, HASH_BYTES};
use crate::listing::{file_bytes, list_names, texts_view};
use crate::path::parse_text;
use crate::resolver::{
    conversation, end_view, feed, fits, lemma_respond_progress, Answer, AnswerModel, EndModel,
    Interpretation, Next, NextModel, Operation, Outcome, OutcomeModel, Question, QuestionModel,
    Resolution, StateModel,
};
use crate::listing::text_names;
use crate::trusted::{
    blob_bytes, commit_hash, commit_tree_hash, entry_hash, entry_kind, entry_kind_of, oid_bytes,
    tree_names,
};
use vstd::pervasive::unreached;
use vstd::prelude::*;
use vstd::slice::slice_to_vec;
use vstd::string::StringExecFns;

verus! {

/// Whether `bytes` hold a zero byte.
pub fn has_zero(bytes: &[u8]) -> (found: bool)
    ensures
        found == bytes@.contains(0u8),
{
    let mut i: usize = 0;
    while i < bytes.len()
        invariant
            i <= bytes@.len(),
            forall|k: int| 0 <= k < i ==> bytes@[k] != 0u8,
        decreases bytes@.len() - i,
    {
        if bytes[i] == 0 {
            return true;
        }
        i += 1;
    }
    false
}

/// The hash that `git2` holds, as an `ObjectId` with the same bytes.
pub fn object_id(oid: &git2::Oid) -> (id: ObjectId)
    ensures
        id@ == oid_bytes(*oid),
        id@.len() == HASH_BYTES,
{
    ObjectId::new(slice_to_vec(oid.as_bytes()))
}

/// The name under which a reference is looked up when it is read as the name
/// of a tag or of a branch.
pub open spec fn full_name(how: Interpretation, reference: Seq<char>) -> Seq<char> {
    match how {
        Interpretation::Tag => "refs/tags/"@ + reference,
        Interpretation::Branch => "refs/heads/"@ + reference,
        Interpretation::RemoteBranch => "refs/remotes/"@ + reference,
        _ => reference,
    }
}

/// The name under which a reference is looked up when it is read as the name
/// of a tag or of a branch.
pub fn reference_name(how: Interpretation, reference: &str) -> (name: String)
    ensures
        name@ == full_name(how, reference@),
{
    let mut name = match how {
        Interpretation::Tag => String::from_str("refs/tags/"),
        Interpretation::Branch => String::from_str("refs/heads/"),
        Interpretation::RemoteBranch => String::from_str("refs/remotes/"),
        _ => String::new(),
    };
    name.append(reference);
    proof {
        assert(Seq::<char>::empty() + reference@ == reference@);
    }
    name
}

/// Whether what `answer` holds was handed out by `git2`: the hashes of a
/// commit answer are those of a commit and of its root tree, the kind and
/// the hash of an entry answer are those of an entry of a tree, the names
/// are those of a tree and the bytes those of a blob. An answer that holds
/// nothing was handed out as it is.
pub open spec fn handed_out(answer: AnswerModel) -> bool {
    match answer {
        AnswerModel::Commit { id, tree } => exists|commit: git2::Commit|
            id == #[trigger] commit_hash(commit) && tree == commit_tree_hash(commit),
        AnswerModel::Entry { kind, id } => exists|entry: git2::TreeEntry|
            id == #[trigger] entry_hash(entry) && kind == entry_kind_of(entry),
        AnswerModel::Names(names) => exists|tree: git2::Tree|
            names == text_names(#[trigger] tree_names(tree)),
        AnswerModel::Bytes(bytes) => exists|blob: git2::Blob| bytes == #[trigger] blob_bytes(blob),
        _ => true,
    }
}

/// What it means for a reference that it has led to a commit or to none:
/// the commit's own hash and the hash of its root tree, or no commit.
pub open spec fn commit_found(peeled: Result<git2::Commit, git2::Error>) -> AnswerModel {
    match peeled {
        Ok(commit) => AnswerModel::Commit {
            id: commit_hash(commit),
            tree: commit_tree_hash(commit),
        },
        Err(_) => AnswerModel::NoCommit,
    }
}

/// The answer for what a reference has led to: a commit where it has led to
/// one, with the hash of that commit and the hash of its root tree, and no
/// commit where it has not.
pub fn commit_answer(peeled: Result<git2::Commit, git2::Error>) -> (answer: Answer)
    ensures
        answer@ == commit_found(peeled),
        handed_out(answer@),
        answer matches Answer::Commit { id, tree } ==> id@.len() == HASH_BYTES && tree@.len()
            == HASH_BYTES,
{
    match peeled {
        Ok(commit) => Answer::Commit {
            id: object_id(&commit.id()),
            tree: object_id(&commit.tree_id()),
        },
        Err(_) => Answer::NoCommit,
    }
}

/// What it means for a name that a tree has an entry for it or has none: the
/// kind and the hash of what the entry points to, or no entry.
pub open spec fn entry_found(found: Option<git2::TreeEntry>) -> AnswerModel {
    match found {
        Some(entry) => AnswerModel::Entry { kind: entry_kind_of(entry), id: entry_hash(entry) },
        None => AnswerModel::NoEntry,
    }
}

/// The answer for what a tree has under a name: the entry, with its own
/// kind and the hash of what it points to, or no entry.
pub fn entry_answer(found: Option<git2::TreeEntry>) -> (answer: Answer)
    ensures
        answer@ == entry_found(found),
        handed_out(answer@),
        answer matches Answer::Entry { kind, id } ==> id@.len() == HASH_BYTES,
{
    match found {
        Some(entry) => Answer::Entry { kind: entry_kind(&entry), id: object_id(&entry.id()) },
        None => Answer::NoEntry,
    }
}

/// What it means for a directory that its tree was read or was not: the
/// names of the tree's own entries that are text, in the order in which the
/// tree holds them, or that it is unreadable.
pub open spec fn names_read(read: Result<git2::Tree, git2::Error>) -> AnswerModel {
    match read {
        Ok(tree) => AnswerModel::Names(text_names(tree_names(tree))),
        Err(_) => AnswerModel::Unreadable,
    }
}

/// The answer for a tree that was to be listed: its names where it was read,
/// unreadable where it was not.
pub fn names_answer(read: Result<git2::Tree, git2::Error>) -> (answer: Answer)
    ensures
        answer@ == names_read(read),
        handed_out(answer@),
{
    match read {
        Ok(tree) => Answer::Names(list_names(&tree)),
        Err(_) => Answer::Unreadable,
    }
}

/// What it means for a file that its blob was read or was not: the bytes
/// that the blob holds, or that it is unreadable.
pub open spec fn bytes_read(read: Result<git2::Blob, git2::Error>) -> AnswerModel {
    match read {
        Ok(blob) => AnswerModel::Bytes(blob_bytes(blob)),
        Err(_) => AnswerModel::Unreadable,
    }
}

/// The answer for a blob that was to be read: its bytes where it was read,
/// unreadable where it was not.
pub fn bytes_answer(read: Result<git2::Blob, git2::Error>) -> (answer: Answer)
    ensures
        answer@ == bytes_read(read),
        handed_out(answer@),
{
    match read {
        Ok(blob) => Answer::Bytes(file_bytes(&blob)),
        Err(_) => Answer::Unreadable,
    }
}

/// Asks which commit `reference` stands for when it is read in the way
/// `how`. What is found is followed to a commit, through tags where there
/// are any. A reference that stands for nothing, or for something that leads
/// to no commit, has no commit.
fn ask_commit(repo: &git2::Repository, how: Interpretation, reference: &str) -> (answer: Answer)
    ensures
        fits(QuestionModel::Commit { how, reference: reference@ }, answer@),
        handed_out(answer@),
{
    match how {
        Interpretation::Hash => match repo.find_object_by_prefix(reference, None) {
            Ok(object) => commit_answer(object.peel_to_commit()),
            Err(_) => Answer::NoCommit,
        },
        Interpretation::Revision => match repo.revparse_single(reference) {
            Ok(object) => commit_answer(object.peel_to_commit()),
            Err(_) => Answer::NoCommit,
        },
        _ => {
            let name = reference_name(how, reference);
            match repo.find_reference(name.as_str()) {
                Ok(found) => commit_answer(found.peel_to_commit()),
                Err(_) => Answer::NoCommit,
            }
        },
    }
}

/// Asks which entry a tree has under a name. No entry has a zero byte in its
/// name, so for such a name the repository is not asked.
fn ask_entry(repo: &git2::Repository, tree: &ObjectId, name: &[u8]) -> (answer: Answer)
    ensures
        fits(QuestionModel::Entry { tree: tree@, name: name@ }, answer@),
        handed_out(answer@),
{
    if has_zero(name) {
        return Answer::NoEntry;
    }
    match git2::Oid::from_bytes(tree.as_bytes()) {
        Ok(oid) => match repo.find_tree(oid) {
            Ok(found) => entry_answer(found.get_name_bytes(name)),
            Err(_) => Answer::Unreadable,
        },
        Err(_) => Answer::Unreadable,
    }
}

/// Asks for the names that a tree holds.
fn ask_names(repo: &git2::Repository, tree: &ObjectId) -> (answer: Answer)
    ensures
        fits(QuestionModel::Names { tree: tree@ }, answer@),
        handed_out(answer@),
{
    match git2::Oid::from_bytes(tree.as_bytes()) {
        Ok(oid) => names_answer(repo.find_tree(oid)),
        Err(_) => Answer::Unreadable,
    }
}

/// Asks for the bytes that a blob holds.
fn ask_bytes(repo: &git2::Repository, blob: &ObjectId) -> (answer: Answer)
    ensures
        fits(QuestionModel::Bytes { blob: blob@ }, answer@),
        handed_out(answer@),
{
    match git2::Oid::from_bytes(blob.as_bytes()) {
        Ok(oid) => bytes_answer(repo.find_blob(oid)),
        Err(_) => Answer::Unreadable,
    }
}

/// Asks a repository one question of the resolver.
///
/// What the repository holds decides the answer; what is fixed is that the
/// answer is one that the question can get, and that what it holds was
/// handed out by `git2` and is not of the library's making.
pub fn ask(repo: &git2::Repository, question: &Question) -> (answer: Answer)
    ensures
        fits(question@, answer@),
        handed_out(answer@),
{
    match question {
        Question::Commit { how, reference } => ask_commit(repo, *how, reference.as_str()),
        Question::Entry { tree, name } => ask_entry(repo, tree, name.as_slice()),
        Question::Names { tree } => ask_names(repo, tree),
        Question::Bytes { blob } => ask_bytes(repo, blob),
    }
}

/// Whether a request can end in `end`: whether there are answers, each one
/// fitting the question that it answers, that lead the resolver from its
/// start to that end.
pub open spec fn explained(
    op: Operation,
    reference: Seq<char>,
    path: Seq<char>,
    end: EndModel,
) -> bool {
    exists|answers: Seq<AnswerModel>|
        conversation(StateModel::start(op, reference, path), answers) && #[trigger] feed(
            StateModel::start(op, reference, path),
            answers,
        ) == NextModel::Done(end)
}

/// Whether `failure` may end a request for `path` at `reference`. Each
/// failure names what the request itself named.
pub open spec fn read_failure(failure: Failure, reference: Seq<char>, path: Seq<char>) -> bool {
    ||| failure == Failure::UnknownReference(reference)
    ||| failure == Failure::PathNotFound(path)
    ||| failure == Failure::PathTypeMismatch(path)
    ||| failure == Failure::StoreFailure
}

/// Whether `failure` may end a request that resolves `reference`.
pub open spec fn reference_failure(failure: Failure, reference: Seq<char>) -> bool {
    failure == Failure::UnknownReference(reference) || failure == Failure::StoreFailure
}

/// Whether `end` is an end that a request of this kind can have, whatever
/// the repository holds.
///
/// A success is of the kind that was asked for. A failure is one of the
/// closed set, and names the reference or the path of the request itself.
/// `ResolveRef` fails only on its reference. A path that spells none always
/// fails, and so does reading a file along a path written with a `/` at its
/// end.
pub open spec fn possible_end(
    op: Operation,
    reference: Seq<char>,
    path: Seq<char>,
    end: EndModel,
) -> bool {
    match end {
        Ok(OutcomeModel::Bytes(bytes)) => op == Operation::CatFile && parse_text(path) is Some
            && !parse_text(path)->0.directory,
        Ok(OutcomeModel::Names(names)) => op == Operation::LsDir && parse_text(path) is Some,
        Ok(OutcomeModel::Hash(text)) => op == Operation::ResolveRef,
        Err(failure) => if op == Operation::ResolveRef {
            reference_failure(failure, reference)
        } else {
            read_failure(failure, reference, path)
        },
    }
}

/// Whether what a success returns was handed out by `git2`: a hash is the
/// text of the hash of a commit, never of another object; the bytes are
/// those of a blob; the names are those of the entries of one tree. A
/// failure returns nothing.
pub open spec fn genuine(end: EndModel) -> bool {
    match end {
        Ok(OutcomeModel::Hash(text)) => exists|commit: git2::Commit|
            text == hex_text(#[trigger] commit_hash(commit)),
        Ok(OutcomeModel::Bytes(bytes)) => exists|blob: git2::Blob|
            bytes == #[trigger] blob_bytes(blob),
        Ok(OutcomeModel::Names(names)) => exists|tree: git2::Tree|
            names == text_names(#[trigger] tree_names(tree)),
        Err(_) => true,
    }
}

/// Resolves a request against a repository: asks what the resolver wants to
/// know until the resolver is done.
///
/// The end is the one that the resolver reaches on the answers that the
/// repository gave, so it is an end that the request can have; and a hash
/// that is returned has the shape of a hash.
pub fn resolve(repo: &git2::Repository, op: Operation, reference: &str, path: &str) -> (end: Result<
    Outcome,
    ResolveError,
>)
    ensures
        explained(op, reference@, path@, end_view(end)),
        possible_end(op, reference@, path@, end_view(end)),
        genuine(end_view(end)),
        end matches Ok(Outcome::Hash(text)) ==> is_hash_text(text@),
{
    let mut state = Resolution::start(op, reference, path);
    let ghost start = state@;
    let ghost mut trail: Seq<AnswerModel> = Seq::empty();
    loop
        invariant
            start == StateModel::start(op, reference@, path@),
            conversation(start, trail),
            feed(start, trail) == NextModel::Ask(state@),
            state@.wf(),
            state@.op == op,
            state@.reference == reference@,
            state@.path == path@,
        decreases state@.remaining(),
    {
        let question = state.question();
        let answer = ask(repo, &question);
        proof {
            assert(trail.push(answer@).drop_last() == trail);
            lemma_respond_progress(state@, answer@);
            if let AnswerModel::Commit { id, tree } = answer@ {
                lemma_hex_text_shape(id);
            }
            trail = trail.push(answer@);
        }
        match state.answer(answer) {
            Next::Done(end) => {
                proof {
                    assert(feed(start, trail) == NextModel::Done(end_view(end)));
                }
                return end;
            },
            Next::Ask(next) => {
                state = next;
            },
        }
    }
}

/// The operations that a repository is read with.
///
/// What a repository holds is not known before it is read, so no operation
/// promises success. Each promises that its result is an end that the
/// request can have.
pub trait GitOps {
    /// The bytes of the file at `path` in the commit that `reference` stands
    /// for.
    fn cat_file(&self, repo: &git2::Repository, reference: &str, path: &str) -> (read: Result<
        Vec<u8>,
        ResolveError,
    >)
        ensures
            possible_end(Operation::CatFile, reference@, path@, cat_file_end(read)),
    ;

    /// The names in the directory at `path` in the commit that `reference`
    /// stands for.
    fn ls_dir(&self, repo: &git2::Repository, reference: &str, path: &str) -> (listed: Result<
        Vec<String>,
        ResolveError,
    >)
        ensures
            possible_end(Operation::LsDir, reference@, path@, ls_dir_end(listed)),
    ;

    /// The hash of the commit that `reference` stands for, as text.
    fn resolve_ref(&self, repo: &git2::Repository, reference: &str) -> (resolved: Result<
        String,
        ResolveError,
    >)
        ensures
            resolved matches Err(e) ==> reference_failure(e@, reference@),
            resolved matches Ok(text) ==> is_hash_text(text@),
    ;
}

/// The result of `cat_file` as the end of a request.
pub open spec fn cat_file_end(read: Result<Vec<u8>, ResolveError>) -> EndModel {
    match read {
        Ok(bytes) => Ok(OutcomeModel::Bytes(bytes@)),
        Err(error) => Err(error@),
    }
}

/// The result of `ls_dir` as the end of a request.
pub open spec fn ls_dir_end(listed: Result<Vec<String>, ResolveError>) -> EndModel {
    match listed {
        Ok(names) => Ok(OutcomeModel::Names(texts_view(names@))),
        Err(error) => Err(error@),
    }
}

/// The result of `resolve_ref` as the end of a request.
pub open spec fn resolve_ref_end(resolved: Result<String, ResolveError>) -> EndModel {
    match resolved {
        Ok(text) => Ok(OutcomeModel::Hash(text@)),
        Err(error) => Err(error@),
    }
}

/// The operations as `git2` carries them out.
pub struct LibGitOps;

impl GitOps for LibGitOps {
    /// Resolves the reference, walks the path from the root tree of its
    /// commit and reads the file that the walk arrives at. The bytes are
    /// returned as the repository holds them.
    fn cat_file(&self, repo: &git2::Repository, reference: &str, path: &str) -> (read: Result<
        Vec<u8>,
        ResolveError,
    >)
        ensures
            explained(Operation::CatFile, reference@, path@, cat_file_end(read)),
            genuine(cat_file_end(read)),
    {
        match resolve(repo, Operation::CatFile, reference, path) {
            Ok(Outcome::Bytes(bytes)) => Ok(bytes),
            Ok(_) => unreached(),
            Err(e) => Err(e),
        }
    }

    /// Resolves the reference, walks the path from the root tree of its
    /// commit and lists the directory that the walk arrives at.
    fn ls_dir(&self, repo: &git2::Repository, reference: &str, path: &str) -> (listed: Result<
        Vec<String>,
        ResolveError,
    >)
        ensures
            explained(Operation::LsDir, reference@, path@, ls_dir_end(listed)),
            genuine(ls_dir_end(listed)),
    {
        match resolve(repo, Operation::LsDir, reference, path) {
            Ok(Outcome::Names(names)) => Ok(names),
            Ok(_) => unreached(),
            Err(e) => Err(e),
        }
    }

    /// Resolves the reference to its commit and writes the commit's hash as
    /// text.
    fn resolve_ref(&self, repo: &git2::Repository, reference: &str) -> (resolved: Result<
        String,
        ResolveError,
    >)
        ensures
            explained(Operation::ResolveRef, reference@, ""@, resolve_ref_end(resolved)),
            genuine(resolve_ref_end(resolved)),
    {
        match resolve(repo, Operation::ResolveRef, reference, "") {
            Ok(Outcome::Hash(text)) => Ok(text),
            Ok(_) => unreached(),
            Err(e) => Err(e),
        }
    }
}

} // verus!
