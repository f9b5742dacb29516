//! The resolver: from a reference and a path to a file's bytes, a
//! directory's names or a commit's hash.
//!
//! Resolving is a conversation with a repository. The resolver asks a
//! question, the repository answers, and the answer decides whether the
//! resolver is done or what it asks next. This module is the resolver's half
//! of the conversation: it reads no repository. What it does is therefore a
//! function of the answers, and is stated and proved as one.

use crate::error::{Failure, ResolveError};
use crate::hash::{hex_text, ObjectId, HASH_BYTES};
use crate::listing::texts_view;
use crate::path::{parse_text, PathModel, RepoPath};
use crate::walk::{advance, step, EntryKind, Step, StepModel, Wanted};
use vstd::prelude::*;
use vstd::slice::slice_to_vec;

verus! {

/// What a request asks for.
#[derive(Debug, Clone, Copy, PartialEq, Eq, Structural)]
pub enum Operation {
    /// The bytes of a file.
    CatFile,
    /// The names in a directory.
    LsDir,
    /// The hash of the commit that a reference stands for.
    ResolveRef,
}

/// A way to read a reference. The ways are tried in the order in which they
/// stand here, and the first that leads to a commit decides.
#[derive(Debug, Clone, Copy, PartialEq, Eq, Structural)]
pub enum Interpretation {
    /// As a hash, in full or abbreviated.
    Hash,
    /// As the name of a tag.
    Tag,
    /// As the name of a branch of the repository itself.
    Branch,
    /// As the name of a branch that the repository tracks.
    RemoteBranch,
    /// As a revision expression.
    Revision,
}

impl Interpretation {
    /// The way that is tried after this one, if there is one.
    pub open spec fn later(self) -> Option<Interpretation> {
        match self {
            Interpretation::Hash => Some(Interpretation::Tag),
            Interpretation::Tag => Some(Interpretation::Branch),
            Interpretation::Branch => Some(Interpretation::RemoteBranch),
            Interpretation::RemoteBranch => Some(Interpretation::Revision),
            Interpretation::Revision => None,
        }
    }

    /// How many ways are tried after this one.
    pub open spec fn left(self) -> nat {
        match self {
            Interpretation::Hash => 4,
            Interpretation::Tag => 3,
            Interpretation::Branch => 2,
            Interpretation::RemoteBranch => 1,
            Interpretation::Revision => 0,
        }
    }

    /// The way that is tried after this one, if there is one.
    pub fn next(self) -> (next: Option<Interpretation>)
        ensures
            next == self.later(),
    {
        match self {
            Interpretation::Hash => Some(Interpretation::Tag),
            Interpretation::Tag => Some(Interpretation::Branch),
            Interpretation::Branch => Some(Interpretation::RemoteBranch),
            Interpretation::RemoteBranch => Some(Interpretation::Revision),
            Interpretation::Revision => None,
        }
    }
}

/// What the resolver asks a repository.
#[derive(Debug, PartialEq, Eq)]
pub enum Question {
    /// Which commit does this reference stand for, read in this way?
    Commit { how: Interpretation, reference: String },
    /// Which entry does the tree with this hash have under this name?
    Entry { tree: ObjectId, name: Vec<u8> },
    /// Which names does the tree with this hash hold?
    Names { tree: ObjectId },
    /// Which bytes does the blob with this hash hold?
    Bytes { blob: ObjectId },
}

/// A `Question` as a mathematical value.
pub enum QuestionModel {
    Commit { how: Interpretation, reference: Seq<char> },
    Entry { tree: Seq<u8>, name: Seq<u8> },
    Names { tree: Seq<u8> },
    Bytes { blob: Seq<u8> },
}

impl View for Question {
    type V = QuestionModel;

    open spec fn view(&self) -> QuestionModel {
        match self {
            Question::Commit { how, reference } => QuestionModel::Commit {
                how: *how,
                reference: reference@,
            },
            Question::Entry { tree, name } => QuestionModel::Entry { tree: tree@, name: name@ },
            Question::Names { tree } => QuestionModel::Names { tree: tree@ },
            Question::Bytes { blob } => QuestionModel::Bytes { blob: blob@ },
        }
    }
}

/// What a repository answers.
#[derive(Debug, PartialEq, Eq)]
pub enum Answer {
    /// Read in that way, the reference stands for the commit `id`, whose
    /// root tree is `tree`.
    Commit { id: ObjectId, tree: ObjectId },
    /// Read in that way, the reference stands for no commit.
    NoCommit,
    /// The tree has an entry of that name, of this kind and with this hash.
    Entry { kind: EntryKind, id: ObjectId },
    /// The tree has no entry of that name.
    NoEntry,
    /// The names that the tree holds, in its own order.
    Names(Vec<String>),
    /// The bytes that the blob holds.
    Bytes(Vec<u8>),
    /// The object that was asked about could not be read.
    Unreadable,
}

/// An `Answer` as a mathematical value.
pub enum AnswerModel {
    Commit { id: Seq<u8>, tree: Seq<u8> },
    NoCommit,
    Entry { kind: EntryKind, id: Seq<u8> },
    NoEntry,
    Names(Seq<Seq<char>>),
    Bytes(Seq<u8>),
    Unreadable,
}

impl View for Answer {
    type V = AnswerModel;

    open spec fn view(&self) -> AnswerModel {
        match self {
            Answer::Commit { id, tree } => AnswerModel::Commit { id: id@, tree: tree@ },
            Answer::NoCommit => AnswerModel::NoCommit,
            Answer::Entry { kind, id } => AnswerModel::Entry { kind: *kind, id: id@ },
            Answer::NoEntry => AnswerModel::NoEntry,
            Answer::Names(names) => AnswerModel::Names(texts_view(names@)),
            Answer::Bytes(bytes) => AnswerModel::Bytes(bytes@),
            Answer::Unreadable => AnswerModel::Unreadable,
        }
    }
}

/// What a request that succeeds returns.
#[derive(Debug, PartialEq, Eq)]
pub enum Outcome {
    /// The bytes of the file.
    Bytes(Vec<u8>),
    /// The names in the directory.
    Names(Vec<String>),
    /// The hash of the commit, as text.
    Hash(String),
}

/// An `Outcome` as a mathematical value.
pub enum OutcomeModel {
    Bytes(Seq<u8>),
    Names(Seq<Seq<char>>),
    Hash(Seq<char>),
}

impl View for Outcome {
    type V = OutcomeModel;

    open spec fn view(&self) -> OutcomeModel {
        match self {
            Outcome::Bytes(bytes) => OutcomeModel::Bytes(bytes@),
            Outcome::Names(names) => OutcomeModel::Names(texts_view(names@)),
            Outcome::Hash(text) => OutcomeModel::Hash(text@),
        }
    }
}

/// How a request ends, as a mathematical value.
pub type EndModel = Result<OutcomeModel, Failure>;

/// How a request ends, as a mathematical value.
pub open spec fn end_view(end: Result<Outcome, ResolveError>) -> EndModel {
    match end {
        Ok(outcome) => Ok(outcome@),
        Err(error) => Err(error@),
    }
}

/// Where a resolution stands: what it waits to be told.
pub enum StageModel {
    /// The commit of the reference, read in the way `how`.
    Commit { how: Interpretation },
    /// The entry under the name at `index` of the path, in the tree `tree`.
    Entry { tree: Seq<u8>, index: nat },
    /// The names of the directory that the path leads to.
    Names { tree: Seq<u8> },
    /// The bytes of the file that the path leads to.
    Bytes { blob: Seq<u8> },
}

/// A resolution in progress, as a mathematical value: the request and the
/// stage that it has reached.
pub struct StateModel {
    pub op: Operation,
    pub reference: Seq<char>,
    pub path: Seq<char>,
    pub stage: StageModel,
}

/// What follows from an answer, as a mathematical value.
pub enum NextModel {
    /// The resolution goes on from this state.
    Ask(StateModel),
    /// The resolution has ended.
    Done(EndModel),
}

impl StateModel {
    /// The state in which every resolution starts: nothing is known yet, and
    /// the reference is first read as a hash.
    pub open spec fn start(op: Operation, reference: Seq<char>, path: Seq<char>) -> StateModel {
        StateModel { op, reference, path, stage: StageModel::Commit { how: Interpretation::Hash } }
    }

    /// The path of the request, parsed.
    pub open spec fn parsed(self) -> Option<PathModel> {
        parse_text(self.path)
    }

    /// How many names the path has; none where it spells no path.
    pub open spec fn count(self) -> nat {
        match self.parsed() {
            Some(path) => path.segments.len(),
            None => 0,
        }
    }

    /// What the request needs to find at the end of its path.
    pub open spec fn wanted(self) -> Wanted {
        if self.op == Operation::CatFile {
            Wanted::File
        } else {
            Wanted::Directory
        }
    }

    /// The stage fits the request: a name is looked up only where the path
    /// has one at that place, a file is read only for `CatFile` and a
    /// directory listed only for `LsDir`.
    pub open spec fn wf(self) -> bool {
        match self.stage {
            StageModel::Commit { how } => true,
            StageModel::Entry { tree, index } => self.op != Operation::ResolveRef
                && self.parsed() is Some && index < self.count(),
            StageModel::Names { tree } => self.op == Operation::LsDir,
            StageModel::Bytes { blob } => self.op == Operation::CatFile,
        }
    }

    /// The question that the resolution asks in this state.
    pub open spec fn question(self) -> QuestionModel {
        match self.stage {
            StageModel::Commit { how } => QuestionModel::Commit { how, reference: self.reference },
            StageModel::Entry { tree, index } => QuestionModel::Entry {
                tree,
                name: self.parsed()->0.segments[index as int],
            },
            StageModel::Names { tree } => QuestionModel::Names { tree },
            StageModel::Bytes { blob } => QuestionModel::Bytes { blob },
        }
    }

    /// This state at another stage.
    pub open spec fn at(self, stage: StageModel) -> StateModel {
        StateModel { op: self.op, reference: self.reference, path: self.path, stage }
    }

    /// The stage that follows when the walk has arrived at `id`: the file is
    /// read or the directory listed.
    pub open spec fn arrived(self, id: Seq<u8>) -> StageModel {
        if self.op == Operation::CatFile {
            StageModel::Bytes { blob: id }
        } else {
            StageModel::Names { tree: id }
        }
    }

    /// What follows from an answer.
    ///
    /// The reference comes first. It is read as a hash, as a tag, as a
    /// branch and as a revision expression, in that order, and the first way
    /// that gives a commit decides; where none does, the request fails as
    /// `UnknownReference`, whatever its path. With a commit, `ResolveRef` is
    /// done and returns the commit's hash as text; the others fail as
    /// `PathNotFound` on a path that spells none, and else walk the path from
    /// the commit's root tree, one name for each answer, as `step` decides.
    /// Where the walk arrives, the file's bytes or the directory's names are
    /// asked for and returned as they come. An answer that does not fit the
    /// question, or says that an object could not be read, ends the request
    /// as `StoreFailure`.
    pub open spec fn respond(self, answer: AnswerModel) -> NextModel {
        match self.stage {
            StageModel::Commit { how } => match answer {
                AnswerModel::Commit { id, tree } => if self.op == Operation::ResolveRef {
                    NextModel::Done(Ok(OutcomeModel::Hash(hex_text(id))))
                } else if self.parsed() is None {
                    NextModel::Done(Err(Failure::PathNotFound(self.path)))
                } else {
                    NextModel::Ask(self.at(StageModel::Entry { tree, index: 0 }))
                },
                AnswerModel::NoCommit => match how.later() {
                    Some(next) => NextModel::Ask(self.at(StageModel::Commit { how: next })),
                    None => NextModel::Done(Err(Failure::UnknownReference(self.reference))),
                },
                _ => NextModel::Done(Err(Failure::StoreFailure)),
            },
            StageModel::Entry { tree, index } => match found_in(answer) {
                Some(found) => match step(
                    found,
                    index + 1 == self.count(),
                    self.wanted(),
                    self.parsed()->0.directory,
                ) {
                    StepModel::Enter(sub) => NextModel::Ask(
                        self.at(StageModel::Entry { tree: sub, index: index + 1 }),
                    ),
                    StepModel::Arrive(found) => NextModel::Ask(self.at(self.arrived(found))),
                    StepModel::Missing => NextModel::Done(Err(Failure::PathNotFound(self.path))),
                    StepModel::Mismatch => NextModel::Done(
                        Err(Failure::PathTypeMismatch(self.path)),
                    ),
                },
                None => NextModel::Done(Err(Failure::StoreFailure)),
            },
            StageModel::Names { tree } => match answer {
                AnswerModel::Names(names) => NextModel::Done(Ok(OutcomeModel::Names(names))),
                _ => NextModel::Done(Err(Failure::StoreFailure)),
            },
            StageModel::Bytes { blob } => match answer {
                AnswerModel::Bytes(bytes) => NextModel::Done(Ok(OutcomeModel::Bytes(bytes))),
                _ => NextModel::Done(Err(Failure::StoreFailure)),
            },
        }
    }

    /// A bound on the number of questions that are still to be asked.
    pub open spec fn remaining(self) -> nat {
        match self.stage {
            StageModel::Commit { how } => self.count() + 3 + how.left(),
            StageModel::Entry { tree, index } => if index < self.count() {
                (self.count() - index + 1) as nat
            } else {
                1
            },
            StageModel::Names { tree } => 1,
            StageModel::Bytes { blob } => 1,
        }
    }
}

/// What an answer says about the entry that was asked for: the entry, or
/// that there is none. `None` where the answer says neither.
pub open spec fn found_in(answer: AnswerModel) -> Option<Option<(EntryKind, Seq<u8>)>> {
    match answer {
        AnswerModel::Entry { kind, id } => Some(Some((kind, id))),
        AnswerModel::NoEntry => Some(None),
        _ => None,
    }
}

/// What comes of a state when it is given `answers` one after the other: the
/// end of the request, or the state that waits for more. Answers that come
/// after the end are not looked at.
pub open spec fn feed(state: StateModel, answers: Seq<AnswerModel>) -> NextModel
    decreases answers.len(),
{
    if answers.len() == 0 {
        NextModel::Ask(state)
    } else {
        match feed(state, answers.drop_last()) {
            NextModel::Ask(reached) => reached.respond(answers.last()),
            NextModel::Done(end) => NextModel::Done(end),
        }
    }
}

/// Whether `answer` is one that `question` can get.
///
/// A question for a commit is answered with a commit or with none. A
/// question about an object is answered in kind, or the object is
/// unreadable. Every hash in an answer has the length of a hash, and nothing
/// is found under a hash that has not. No entry has a zero byte in its name,
/// so a name with one has no entry, whatever the tree.
pub open spec fn fits(question: QuestionModel, answer: AnswerModel) -> bool {
    match question {
        QuestionModel::Commit { how, reference } => match answer {
            AnswerModel::Commit { id, tree } => id.len() == HASH_BYTES && tree.len() == HASH_BYTES,
            AnswerModel::NoCommit => true,
            _ => false,
        },
        QuestionModel::Entry { tree, name } => if name.contains(0u8) {
            answer is NoEntry
        } else {
            match answer {
                AnswerModel::Entry { kind, id } => tree.len() == HASH_BYTES && id.len()
                    == HASH_BYTES,
                AnswerModel::NoEntry => tree.len() == HASH_BYTES,
                AnswerModel::Unreadable => true,
                _ => false,
            }
        },
        QuestionModel::Names { tree } => match answer {
            AnswerModel::Names(names) => tree.len() == HASH_BYTES,
            AnswerModel::Unreadable => true,
            _ => false,
        },
        QuestionModel::Bytes { blob } => match answer {
            AnswerModel::Bytes(bytes) => blob.len() == HASH_BYTES,
            AnswerModel::Unreadable => true,
            _ => false,
        },
    }
}

/// Whether `answers` can be the answers of a repository to the questions
/// that the resolver asks from `state` on: each answer fits the question that
/// it answers, and none comes after the end.
pub open spec fn conversation(state: StateModel, answers: Seq<AnswerModel>) -> bool
    decreases answers.len(),
{
    answers.len() == 0 || (conversation(state, answers.drop_last()) && match feed(
        state,
        answers.drop_last(),
    ) {
        NextModel::Ask(reached) => fits(reached.question(), answers.last()),
        NextModel::Done(end) => false,
    })
}

/// An answer keeps a state well formed and brings the resolution strictly
/// nearer to its end: no resolution goes on for ever.
pub proof fn lemma_respond_progress(state: StateModel, answer: AnswerModel)
    requires
        state.wf(),
    ensures
        state.respond(answer) matches NextModel::Ask(next) ==> next.wf() && next.remaining()
            < state.remaining() && next.op == state.op && next.reference == state.reference
            && next.path == state.path,
{
}

/// The stage of a resolution, with what it keeps at hand: on the walk, the
/// names of the path.
enum Stage {
    Commit { how: Interpretation },
    Entry { names: RepoPath, tree: ObjectId, index: usize },
    Names { tree: ObjectId },
    Bytes { blob: ObjectId },
}

impl View for Stage {
    type V = StageModel;

    closed spec fn view(&self) -> StageModel {
        match self {
            Stage::Commit { how } => StageModel::Commit { how: *how },
            Stage::Entry { names, tree, index } => StageModel::Entry {
                tree: tree@,
                index: *index as nat,
            },
            Stage::Names { tree } => StageModel::Names { tree: tree@ },
            Stage::Bytes { blob } => StageModel::Bytes { blob: blob@ },
        }
    }
}

/// A resolution in progress.
pub struct Resolution {
    op: Operation,
    reference: String,
    path: String,
    stage: Stage,
}

/// What follows from an answer.
pub enum Next {
    /// The resolution goes on: ask its question.
    Ask(Resolution),
    /// The resolution has ended.
    Done(Result<Outcome, ResolveError>),
}

impl View for Resolution {
    type V = StateModel;

    closed spec fn view(&self) -> StateModel {
        StateModel { op: self.op, reference: self.reference@, path: self.path@, stage: self.stage@ }
    }
}

impl View for Next {
    type V = NextModel;

    open spec fn view(&self) -> NextModel {
        match self {
            Next::Ask(state) => NextModel::Ask(state@),
            Next::Done(end) => NextModel::Done(end_view(*end)),
        }
    }
}

impl Resolution {
    /// The stage fits the request, and the names at hand are those of its
    /// path.
    #[verifier::type_invariant]
    spec fn inv(self) -> bool {
        &&& self@.wf()
        &&& self.stage matches Stage::Entry { names, tree, index } ==> parse_text(self.path@)
            == Some(names@) && names@.wf()
    }

    /// Starts the resolution of a request.
    pub fn start(op: Operation, reference: &str, path: &str) -> (state: Resolution)
        ensures
            state@ == StateModel::start(op, reference@, path@),
    {
        Resolution {
            op,
            reference: reference.to_owned(),
            path: path.to_owned(),
            stage: Stage::Commit { how: Interpretation::Hash },
        }
    }

    /// The question to ask next.
    pub fn question(&self) -> (question: Question)
        ensures
            question@ == self@.question(),
    {
        proof {
            use_type_invariant(self);
        }
        match &self.stage {
            Stage::Commit { how } => Question::Commit {
                how: *how,
                reference: self.reference.clone(),
            },
            Stage::Entry { names, tree, index } => Question::Entry {
                tree: ObjectId::new(slice_to_vec(tree.as_bytes())),
                name: slice_to_vec(names.segment(*index)),
            },
            Stage::Names { tree } => Question::Names {
                tree: ObjectId::new(slice_to_vec(tree.as_bytes())),
            },
            Stage::Bytes { blob } => Question::Bytes {
                blob: ObjectId::new(slice_to_vec(blob.as_bytes())),
            },
        }
    }

    /// Takes the answer to the question and says what follows: the end of
    /// the request, or the state to go on from. Each answer brings the end
    /// nearer.
    pub fn answer(self, answer: Answer) -> (next: Next)
        ensures
            next@ == self@.respond(answer@),
            next matches Next::Ask(state) ==> state@.remaining() < self@.remaining(),
    {
        proof {
            use_type_invariant(&self);
            lemma_respond_progress(self@, answer@);
        }
        let Resolution { op, reference, path, stage } = self;
        match stage {
            Stage::Commit { how } => match answer {
                Answer::Commit { id, tree } => {
                    if op == Operation::ResolveRef {
                        Next::Done(Ok(Outcome::Hash(id.to_text())))
                    } else {
                        match RepoPath::parse(path.as_str()) {
                            None => Next::Done(Err(ResolveError::PathNotFound(path))),
                            Some(names) => Next::Ask(
                                Resolution {
                                    op,
                                    reference,
                                    path,
                                    stage: Stage::Entry { names, tree, index: 0 },
                                },
                            ),
                        }
                    }
                },
                Answer::NoCommit => match how.next() {
                    Some(next) => Next::Ask(
                        Resolution { op, reference, path, stage: Stage::Commit { how: next } },
                    ),
                    None => Next::Done(Err(ResolveError::UnknownReference(reference))),
                },
                _ => Next::Done(Err(ResolveError::StoreFailure)),
            },
            Stage::Entry { names, tree, index } => {
                let found = match answer {
                    Answer::Entry { kind, id } => Some((kind, id)),
                    Answer::NoEntry => None,
                    _ => {
                        return Next::Done(Err(ResolveError::StoreFailure));
                    },
                };
                let count = names.len();
                let last = index + 1 == count;
                let want = if op == Operation::CatFile {
                    Wanted::File
                } else {
                    Wanted::Directory
                };
                match advance(found, last, want, names.directory()) {
                    Step::Enter(sub) => Next::Ask(
                        Resolution {
                            op,
                            reference,
                            path,
                            stage: Stage::Entry { names, tree: sub, index: index + 1 },
                        },
                    ),
                    Step::Arrive(found) => {
                        let stage = if op == Operation::CatFile {
                            Stage::Bytes { blob: found }
                        } else {
                            Stage::Names { tree: found }
                        };
                        Next::Ask(Resolution { op, reference, path, stage })
                    },
                    Step::Missing => Next::Done(Err(ResolveError::PathNotFound(path))),
                    Step::Mismatch => Next::Done(Err(ResolveError::PathTypeMismatch(path))),
                }
            },
            Stage::Names { tree } => match answer {
                Answer::Names(names) => Next::Done(Ok(Outcome::Names(names))),
                _ => Next::Done(Err(ResolveError::StoreFailure)),
            },
            Stage::Bytes { blob } => match answer {
                Answer::Bytes(bytes) => Next::Done(Ok(Outcome::Bytes(bytes))),
                _ => Next::Done(Err(ResolveError::StoreFailure)),
            },
        }
    }
}

} // verus!
