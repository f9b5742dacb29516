//! What holds of the resolver whatever a repository holds.
//!
//! Each law speaks of the answers that a repository gives and of the end
//! that the resolver reaches on them. `resolve` asks a repository and ends
//! where the resolver ends on its answers, so each law holds of every
//! request that `resolve` serves: where the repository answers as the law
//! supposes, the request ends as the law says.

use crate::error::Failure;
use crate::git::possible_end;
use crate::hash::{
    hex_text, is_hash_text, lemma_hex_text_injective, lemma_hex_text_shape, HASH_BYTES,
};
use crate::listing::text_names;
use crate::path::{
    join, lemma_join_split, lemma_split_nonempty, lemma_split_pieces_hold_no_separator, parse,
    parse_text, split, SEPARATOR,
};
use crate::registry::{outcomes_of, registered, Candidate};
use crate::resolver::{
    conversation, feed, lemma_respond_progress, AnswerModel, EndModel, Interpretation, NextModel,
    Operation, OutcomeModel, QuestionModel, StageModel, StateModel,
};
use crate::walk::EntryKind;
use vstd::prelude::*;
use vstd::utf8::{decode_utf8, valid_utf8};

verus! {

/// How many ways there are to read a reference.
pub open spec fn ways() -> nat {
    5
}

/// The ways to read a reference, in the order in which they are tried.
pub open spec fn way(n: nat) -> Interpretation {
    if n == 0 {
        Interpretation::Hash
    } else if n == 1 {
        Interpretation::Tag
    } else if n == 2 {
        Interpretation::Branch
    } else if n == 3 {
        Interpretation::RemoteBranch
    } else {
        Interpretation::Revision
    }
}

/// The answers of a repository in which the first `misses` ways to read the
/// reference lead to no commit.
pub open spec fn missed(misses: nat) -> Seq<AnswerModel>
    decreases misses,
{
    if misses == 0 {
        Seq::<AnswerModel>::empty()
    } else {
        missed((misses - 1) as nat).push(AnswerModel::NoCommit)
    }
}

/// The state of a request that waits for the commit of its reference, read
/// in the way `how`.
pub open spec fn reading(
    op: Operation,
    reference: Seq<char>,
    path: Seq<char>,
    how: Interpretation,
) -> StateModel {
    StateModel { op, reference, path, stage: StageModel::Commit { how } }
}

/// The answers of a repository on the way down a path: the first `misses`
/// ways to read the reference lead to no commit and the next leads to the
/// commit `commit` with the root tree `root`, and each name that has been
/// looked up so far is a directory, with the hashes `dirs` in order.
pub open spec fn descent(
    misses: nat,
    commit: Seq<u8>,
    root: Seq<u8>,
    dirs: Seq<Seq<u8>>,
) -> Seq<AnswerModel>
    decreases dirs.len(),
{
    if dirs.len() == 0 {
        missed(misses).push(AnswerModel::Commit { id: commit, tree: root })
    } else {
        descent(misses, commit, root, dirs.drop_last()).push(
            AnswerModel::Entry { kind: EntryKind::Tree, id: dirs.last() },
        )
    }
}

/// The tree that a descent has reached: the last directory, or the root.
pub open spec fn reached(root: Seq<u8>, dirs: Seq<Seq<u8>>) -> Seq<u8> {
    if dirs.len() == 0 {
        root
    } else {
        dirs.last()
    }
}

/// Whether `dirs` are the directories on the way to the last name of `path`:
/// the path spells one, and there is a directory for each name but the last.
pub open spec fn leads_to_last(path: Seq<char>, dirs: Seq<Seq<u8>>) -> bool {
    parse_text(path) matches Some(p) && dirs.len() + 1 == p.segments.len()
}

/// The state of a request on its walk: it waits for the entry under the name
/// at `index` of its path, in the tree `tree`.
pub open spec fn walking(
    op: Operation,
    reference: Seq<char>,
    path: Seq<char>,
    tree: Seq<u8>,
    index: nat,
) -> StateModel {
    StateModel { op, reference, path, stage: StageModel::Entry { tree, index } }
}

/// The question for the name at `index` of `path`, asked of the tree `tree`.
pub open spec fn next_name(path: Seq<char>, tree: Seq<u8>, index: nat) -> QuestionModel {
    QuestionModel::Entry { tree, name: parse_text(path)->0.segments[index as int] }
}

/// The ways to read a reference are tried in their order, each one after
/// the one before it has led to no commit: after `misses` of them the
/// resolver asks for the commit of the reference as the next way reads it.
pub proof fn reference_is_read_in_order(
    op: Operation,
    reference: Seq<char>,
    path: Seq<char>,
    misses: nat,
)
    requires
        misses < ways(),
    ensures
        feed(StateModel::start(op, reference, path), missed(misses)) == NextModel::Ask(
            reading(op, reference, path, way(misses)),
        ),
        reading(op, reference, path, way(misses)).question() == (QuestionModel::Commit {
            how: way(misses),
            reference,
        }),
    decreases misses,
{
    if misses > 0 {
        reference_is_read_in_order(op, reference, path, (misses - 1) as nat);
        assert(missed(misses).drop_last() == missed((misses - 1) as nat));
    }
}

/// Names are taken from left to right, one for each directory: after a
/// descent through `dirs` the resolver asks for the next name of the path in
/// the tree that the descent has reached.
pub proof fn descent_follows_the_path(
    op: Operation,
    reference: Seq<char>,
    path: Seq<char>,
    misses: nat,
    commit: Seq<u8>,
    root: Seq<u8>,
    dirs: Seq<Seq<u8>>,
)
    requires
        op != Operation::ResolveRef,
        misses < ways(),
        parse_text(path) matches Some(p) && dirs.len() < p.segments.len(),
    ensures
        feed(StateModel::start(op, reference, path), descent(misses, commit, root, dirs))
            == NextModel::Ask(walking(op, reference, path, reached(root, dirs), dirs.len())),
        walking(op, reference, path, reached(root, dirs), dirs.len()).question() == next_name(
            path,
            reached(root, dirs),
            dirs.len(),
        ),
    decreases dirs.len(),
{
    let start = StateModel::start(op, reference, path);
    if dirs.len() == 0 {
        reference_is_read_in_order(op, reference, path, misses);
        let answers = descent(misses, commit, root, dirs);
        assert(answers.drop_last() == missed(misses));
    } else {
        descent_follows_the_path(op, reference, path, misses, commit, root, dirs.drop_last());
        let before = descent(misses, commit, root, dirs.drop_last());
        assert(descent(misses, commit, root, dirs).drop_last() == before);
    }
}

/// A path that parses is a sequence of names, none of them empty and none
/// with a `/` in it, and writing the names out with `/` between them gives
/// the text that was parsed, byte for byte.
pub proof fn parsed_path_spells_its_text(bytes: Seq<u8>)
    requires
        parse(bytes) is Some,
    ensures
        parse(bytes)->0.wf(),
        parse(bytes)->0.text() == bytes,
{
    let pieces = split(bytes, SEPARATOR);
    lemma_split_nonempty(bytes, SEPARATOR);
    lemma_split_pieces_hold_no_separator(bytes, SEPARATOR);
    lemma_join_split(bytes, SEPARATOR);
    let p = parse(bytes)->0;
    let segments = if pieces.len() >= 2 && pieces.last().len() == 0 {
        pieces.drop_last()
    } else {
        pieces
    };
    assert(p.segments == segments);
    if p.directory {
        assert(pieces.last() == Seq::<u8>::empty());
        assert(join(pieces, SEPARATOR) == join(pieces.drop_last(), SEPARATOR).push(SEPARATOR)
            + pieces.last());
        assert(join(pieces, SEPARATOR) == join(pieces.drop_last(), SEPARATOR).push(SEPARATOR));
    }
    assert forall|i: int| 0 <= i < p.segments.len() implies (#[trigger] p.segments[i]).len() > 0
        && !p.segments[i].contains(SEPARATOR) by {
        assert(segments[i].len() > 0);
        assert(p.segments[i] == pieces[i]);
    }
}

/// The empty text spells no path.
pub proof fn empty_path_is_no_path()
    ensures
        parse(Seq::<u8>::empty()) is None,
{
    let pieces = split(Seq::<u8>::empty(), SEPARATOR);
    assert(pieces[0].len() == 0);
}

/// A listing adds nothing: it is no longer than the directory has entries.
pub proof fn listing_adds_nothing(names: Seq<Seq<u8>>)
    ensures
        text_names(names).len() <= names.len(),
    decreases names.len(),
{
    if names.len() > 0 {
        listing_adds_nothing(names.drop_last());
    }
}

/// A listing is complete and in order: where every name of a directory is
/// text, each entry is listed, once, at the place where it stands.
pub proof fn listing_is_complete(names: Seq<Seq<u8>>)
    requires
        forall|i: int| 0 <= i < names.len() ==> valid_utf8(#[trigger] names[i]),
    ensures
        text_names(names).len() == names.len(),
        forall|i: int|
            0 <= i < names.len() ==> #[trigger] text_names(names)[i] == decode_utf8(names[i]),
    decreases names.len(),
{
    if names.len() > 0 {
        let shorter = names.drop_last();
        assert forall|i: int| 0 <= i < shorter.len() implies valid_utf8(#[trigger] shorter[i]) by {
            assert(shorter[i] == names[i]);
        }
        listing_is_complete(shorter);
        assert(valid_utf8(names.last()));
        assert forall|i: int| 0 <= i < names.len() implies #[trigger] text_names(names)[i]
            == decode_utf8(names[i]) by {
            if i < shorter.len() {
                assert(text_names(names)[i] == text_names(shorter)[i]);
                assert(shorter[i] == names[i]);
            }
        }
    }
}

/// The first way that leads to a commit decides: where the first `misses`
/// ways to read a reference lead to no commit and the next leads to
/// `commit`, `ResolveRef` returns the text of the hash of `commit`. The ways
/// that come after are not tried.
pub proof fn first_commit_found_decides(
    reference: Seq<char>,
    path: Seq<char>,
    misses: nat,
    commit: Seq<u8>,
    root: Seq<u8>,
)
    requires
        misses < ways(),
    ensures
        feed(
            StateModel::start(Operation::ResolveRef, reference, path),
            missed(misses).push(AnswerModel::Commit { id: commit, tree: root }),
        ) == NextModel::Done(Ok(OutcomeModel::Hash(hex_text(commit)))),
{
    let found = missed(misses).push(AnswerModel::Commit { id: commit, tree: root });
    reference_is_read_in_order(Operation::ResolveRef, reference, path, misses);
    assert(found.drop_last() == missed(misses));
}

/// Whether the candidate at `i` is a directory that was registered under
/// `name`.
pub open spec fn registers(
    candidates: Seq<Candidate>,
    outcomes: Seq<Option<(Seq<char>, git2::Repository)>>,
    i: int,
    name: Seq<char>,
) -> bool {
    &&& 0 <= i < candidates.len()
    &&& candidates[i].is_dir
    &&& outcomes[i] matches Some((registered_as, repo))
    &&& registered_as == name
}

/// Only directories are registered: every name in the registry is the name
/// under which one of the directories among the candidates opened. What is
/// not a directory gives the registry nothing, and neither does anything
/// that is no candidate, such as what lies inside a directory.
pub proof fn only_directories_are_registered(
    candidates: Seq<Candidate>,
    outcomes: Seq<Option<(Seq<char>, git2::Repository)>>,
    name: Seq<char>,
)
    requires
        outcomes_of(candidates, outcomes),
        registered(outcomes).contains_key(name),
    ensures
        exists|i: int| registers(candidates, outcomes, i, name),
    decreases outcomes.len(),
{
    if outcomes.len() > 0 {
        let last = outcomes.len() - 1;
        let found = match outcomes.last() {
            Some((n, repo)) => n == name,
            None => false,
        };
        if found {
            assert(registers(candidates, outcomes, last, name));
        } else {
            let fewer = candidates.drop_last();
            let before = outcomes.drop_last();
            assert forall|i: int| 0 <= i < before.len() && (#[trigger] before[i]) is Some
                implies fewer[i].is_dir by {
                assert(before[i] == outcomes[i]);
            }
            only_directories_are_registered(fewer, before, name);
            let i = choose|i: int| registers(fewer, before, i, name);
            assert(before[i] == outcomes[i]);
            assert(fewer[i] == candidates[i]);
            assert(registers(candidates, outcomes, i, name));
        }
    }
}

/// A listing goes entry by entry: the listing of two runs of entries is the
/// listing of the first followed by that of the second. So the names come in
/// the order of the entries, and each entry gives one name or none, never
/// more.
pub proof fn listing_goes_entry_by_entry(first: Seq<Seq<u8>>, second: Seq<Seq<u8>>)
    ensures
        text_names(first + second) == text_names(first) + text_names(second),
    decreases second.len(),
{
    if second.len() == 0 {
        assert(first + second == first);
        assert(text_names(first) + text_names(second) == text_names(first));
    } else {
        let all = first + second;
        assert(all.drop_last() == first + second.drop_last());
        assert(all.last() == second.last());
        listing_goes_entry_by_entry(first, second.drop_last());
        if valid_utf8(second.last()) {
            assert(text_names(all) == (text_names(first) + text_names(second.drop_last())).push(
                decode_utf8(second.last()),
            ));
            assert(text_names(all) == text_names(first) + text_names(second));
        }
    }
}

/// Whether `text` is the name of one of the entries with the names `names`.
pub open spec fn names_an_entry(names: Seq<Seq<u8>>, text: Seq<char>) -> bool {
    exists|j: int|
        0 <= j < names.len() && valid_utf8(#[trigger] names[j]) && decode_utf8(names[j]) == text
}

/// A listing holds nothing but the directory's own entries: every name in
/// it is the name of an entry of the directory that was listed. Nothing that
/// lies deeper is among them, since no deeper directory is read.
pub proof fn listing_holds_only_entries(names: Seq<Seq<u8>>)
    ensures
        forall|k: int|
            0 <= k < text_names(names).len() ==> names_an_entry(
                names,
                #[trigger] text_names(names)[k],
            ),
    decreases names.len(),
{
    if names.len() > 0 {
        let shorter = names.drop_last();
        let n = shorter.len() as int;
        listing_holds_only_entries(shorter);
        assert forall|k: int| 0 <= k < text_names(names).len() implies names_an_entry(
            names,
            #[trigger] text_names(names)[k],
        ) by {
            if k < text_names(shorter).len() {
                let text = text_names(shorter)[k];
                assert(text_names(names)[k] == text);
                assert(names_an_entry(shorter, text));
                let j = choose|j: int|
                    0 <= j < shorter.len() && valid_utf8(#[trigger] shorter[j]) && decode_utf8(
                        shorter[j],
                    ) == text;
                assert(names[j] == shorter[j]);
            } else {
                assert(valid_utf8(names[n]));
                assert(text_names(names)[k] == decode_utf8(names[n]));
            }
        }
    }
}

/// A hash-valued reference resolves to itself: where `reference` is the text
/// of a hash and the repository, asked for it as a hash, answers with the
/// commit of that hash, `ResolveRef` returns `reference` unchanged.
pub proof fn hash_reference_resolves_to_itself(
    reference: Seq<char>,
    path: Seq<char>,
    commit: Seq<u8>,
    root: Seq<u8>,
)
    requires
        reference == hex_text(commit),
    ensures
        feed(
            StateModel::start(Operation::ResolveRef, reference, path),
            seq![AnswerModel::Commit { id: commit, tree: root }],
        ) == NextModel::Done(Ok(OutcomeModel::Hash(reference))),
{
    first_commit_found_decides(reference, path, 0, commit, root);
    assert(missed(0).push(AnswerModel::Commit { id: commit, tree: root })
        == seq![AnswerModel::Commit { id: commit, tree: root }]);
}

/// Two references that stand for the same commit resolve to the same hash:
/// a tag that points at a commit resolves as the hash of that commit does.
/// The tag is found as a tag, after it has not been found as a hash; the
/// hash is found at once.
pub proof fn tag_resolves_as_the_hash_of_its_commit(
    tag: Seq<char>,
    hash: Seq<char>,
    path: Seq<char>,
    commit: Seq<u8>,
    root: Seq<u8>,
)
    ensures
        feed(
            StateModel::start(Operation::ResolveRef, tag, path),
            seq![AnswerModel::NoCommit, AnswerModel::Commit { id: commit, tree: root }],
        ) == feed(
            StateModel::start(Operation::ResolveRef, hash, path),
            seq![AnswerModel::Commit { id: commit, tree: root }],
        ),
{
    let found = AnswerModel::Commit { id: commit, tree: root };
    first_commit_found_decides(tag, path, 1, commit, root);
    first_commit_found_decides(hash, path, 0, commit, root);
    assert(missed(0).push(found) == seq![found]);
    assert(missed(0).push(AnswerModel::NoCommit) == missed(1));
    assert(missed(1).push(found) == seq![AnswerModel::NoCommit, found]);
}

/// Any two references that lead to the same commit resolve to the same
/// hash, in whichever way each of them is found.
pub proof fn references_to_one_commit_resolve_alike(
    one: Seq<char>,
    other: Seq<char>,
    path: Seq<char>,
    misses_one: nat,
    misses_other: nat,
    commit: Seq<u8>,
    root: Seq<u8>,
)
    requires
        misses_one < ways(),
        misses_other < ways(),
    ensures
        feed(
            StateModel::start(Operation::ResolveRef, one, path),
            missed(misses_one).push(AnswerModel::Commit { id: commit, tree: root }),
        ) == feed(
            StateModel::start(Operation::ResolveRef, other, path),
            missed(misses_other).push(AnswerModel::Commit { id: commit, tree: root }),
        ),
{
    first_commit_found_decides(one, path, misses_one, commit, root);
    first_commit_found_decides(other, path, misses_other, commit, root);
}

/// Hashes are stable identities: the text of a hash has the shape of a hash,
/// and two commits have the same text only if they are the same commit.
pub proof fn hash_text_identifies_the_commit(a: Seq<u8>, b: Seq<u8>)
    requires
        a.len() == HASH_BYTES,
    ensures
        is_hash_text(hex_text(a)),
        hex_text(a) == hex_text(b) ==> a == b,
{
    lemma_hex_text_shape(a);
    if hex_text(a) == hex_text(b) {
        lemma_hex_text_injective(a, b);
    }
}

/// A file is read back as it is: where the path leads through directories to
/// a file and the repository gives the file's bytes as `bytes`, `CatFile`
/// returns exactly `bytes`.
pub proof fn file_is_read_back_unchanged(
    reference: Seq<char>,
    path: Seq<char>,
    misses: nat,
    commit: Seq<u8>,
    root: Seq<u8>,
    dirs: Seq<Seq<u8>>,
    blob: Seq<u8>,
    bytes: Seq<u8>,
)
    requires
        misses < ways(),
        leads_to_last(path, dirs),
        !parse_text(path)->0.directory,
    ensures
        feed(
            StateModel::start(Operation::CatFile, reference, path),
            descent(misses, commit, root, dirs).push(
                AnswerModel::Entry { kind: EntryKind::Blob, id: blob },
            ).push(AnswerModel::Bytes(bytes)),
        ) == NextModel::Done(Ok(OutcomeModel::Bytes(bytes))),
{
    let start = StateModel::start(Operation::CatFile, reference, path);
    let down = descent(misses, commit, root, dirs);
    let found = down.push(AnswerModel::Entry { kind: EntryKind::Blob, id: blob });
    descent_follows_the_path(Operation::CatFile, reference, path, misses, commit, root, dirs);
    assert(found.drop_last() == down);
    assert(feed(start, found) == NextModel::Ask(
        StateModel {
            op: Operation::CatFile,
            reference,
            path,
            stage: StageModel::Bytes { blob },
        },
    ));
    assert(found.push(AnswerModel::Bytes(bytes)).drop_last() == found);
}

/// A directory is listed completely and without what lies deeper: where the
/// path leads through directories to a directory and the repository gives
/// the names of that directory as `names`, `LsDir` returns exactly `names`,
/// in that order. What the entries of the directory hold in turn is never
/// asked for.
pub proof fn directory_is_listed_as_it_is(
    reference: Seq<char>,
    path: Seq<char>,
    misses: nat,
    commit: Seq<u8>,
    root: Seq<u8>,
    dirs: Seq<Seq<u8>>,
    dir: Seq<u8>,
    names: Seq<Seq<char>>,
)
    requires
        misses < ways(),
        leads_to_last(path, dirs),
    ensures
        feed(
            StateModel::start(Operation::LsDir, reference, path),
            descent(misses, commit, root, dirs).push(AnswerModel::Entry { kind: EntryKind::Tree, id: dir }),
        ) == NextModel::Ask(
            StateModel {
                op: Operation::LsDir,
                reference,
                path,
                stage: StageModel::Names { tree: dir },
            },
        ),
        feed(
            StateModel::start(Operation::LsDir, reference, path),
            descent(misses, commit, root, dirs).push(
                AnswerModel::Entry { kind: EntryKind::Tree, id: dir },
            ).push(AnswerModel::Names(names)),
        ) == NextModel::Done(Ok(OutcomeModel::Names(names))),
{
    let start = StateModel::start(Operation::LsDir, reference, path);
    let down = descent(misses, commit, root, dirs);
    let found = down.push(AnswerModel::Entry { kind: EntryKind::Tree, id: dir });
    descent_follows_the_path(Operation::LsDir, reference, path, misses, commit, root, dirs);
    assert(found.drop_last() == down);
    assert(found.push(AnswerModel::Names(names)).drop_last() == found);
}

/// The wrong kind at the end of a path is a failure on both sides: `CatFile`
/// on a path that leads to a directory and `LsDir` on a path that leads to a
/// file both end as `PathTypeMismatch`, with nothing returned.
pub proof fn wrong_kind_is_a_mismatch(
    reference: Seq<char>,
    path: Seq<char>,
    misses: nat,
    commit: Seq<u8>,
    root: Seq<u8>,
    dirs: Seq<Seq<u8>>,
    id: Seq<u8>,
)
    requires
        misses < ways(),
        leads_to_last(path, dirs),
    ensures
        feed(
            StateModel::start(Operation::CatFile, reference, path),
            descent(misses, commit, root, dirs).push(AnswerModel::Entry { kind: EntryKind::Tree, id }),
        ) == NextModel::Done(Err(Failure::PathTypeMismatch(path))),
        feed(
            StateModel::start(Operation::LsDir, reference, path),
            descent(misses, commit, root, dirs).push(AnswerModel::Entry { kind: EntryKind::Blob, id }),
        ) == NextModel::Done(Err(Failure::PathTypeMismatch(path))),
{
    let down = descent(misses, commit, root, dirs);
    descent_follows_the_path(Operation::CatFile, reference, path, misses, commit, root, dirs);
    descent_follows_the_path(Operation::LsDir, reference, path, misses, commit, root, dirs);
    assert(down.push(AnswerModel::Entry { kind: EntryKind::Tree, id }).drop_last() == down);
    assert(down.push(AnswerModel::Entry { kind: EntryKind::Blob, id }).drop_last() == down);
}

/// A file is never taken for a directory: where a name that is not the last
/// of the path has a file for its entry, the request ends as
/// `PathTypeMismatch`.
pub proof fn file_on_the_way_is_a_mismatch(
    op: Operation,
    reference: Seq<char>,
    path: Seq<char>,
    misses: nat,
    commit: Seq<u8>,
    root: Seq<u8>,
    dirs: Seq<Seq<u8>>,
    id: Seq<u8>,
)
    requires
        misses < ways(),
        op != Operation::ResolveRef,
        parse_text(path) matches Some(p) && dirs.len() + 1 < p.segments.len(),
    ensures
        feed(
            StateModel::start(op, reference, path),
            descent(misses, commit, root, dirs).push(AnswerModel::Entry { kind: EntryKind::Blob, id }),
        ) == NextModel::Done(Err(Failure::PathTypeMismatch(path))),
{
    let down = descent(misses, commit, root, dirs);
    descent_follows_the_path(op, reference, path, misses, commit, root, dirs);
    assert(down.push(AnswerModel::Entry { kind: EntryKind::Blob, id }).drop_last() == down);
}

/// A name without an entry is not found: wherever on the path the tree has
/// no entry for the name, the request ends as `PathNotFound`.
pub proof fn missing_name_is_not_found(
    op: Operation,
    reference: Seq<char>,
    path: Seq<char>,
    misses: nat,
    commit: Seq<u8>,
    root: Seq<u8>,
    dirs: Seq<Seq<u8>>,
)
    requires
        misses < ways(),
        op != Operation::ResolveRef,
        parse_text(path) matches Some(p) && dirs.len() < p.segments.len(),
    ensures
        feed(
            StateModel::start(op, reference, path),
            descent(misses, commit, root, dirs).push(AnswerModel::NoEntry),
        ) == NextModel::Done(Err(Failure::PathNotFound(path))),
{
    let down = descent(misses, commit, root, dirs);
    descent_follows_the_path(op, reference, path, misses, commit, root, dirs);
    assert(down.push(AnswerModel::NoEntry).drop_last() == down);
}

/// A reference that stands for no commit is unknown, whatever is asked of it
/// and whatever the path: where no way to read it leads to a commit, the
/// request ends as `UnknownReference` with the reference as it was written.
pub proof fn unknown_reference_is_reported(op: Operation, reference: Seq<char>, path: Seq<char>)
    ensures
        feed(StateModel::start(op, reference, path), missed(ways())) == NextModel::Done(
            Err(Failure::UnknownReference(reference)),
        ),
{
    reference_is_read_in_order(op, reference, path, 4);
    assert(missed(5).drop_last() == missed(4));
}

/// While a request goes on, it stays the request it was, at a stage that
/// fits it.
pub proof fn request_stays_itself(start: StateModel, answers: Seq<AnswerModel>)
    requires
        start.wf(),
    ensures
        feed(start, answers) matches NextModel::Ask(state) ==> state.wf() && state.op == start.op
            && state.reference == start.reference && state.path == start.path,
    decreases answers.len(),
{
    if answers.len() > 0 {
        request_stays_itself(start, answers.drop_last());
        if let NextModel::Ask(reached) = feed(start, answers.drop_last()) {
            lemma_respond_progress(reached, answers.last());
        }
    }
}

/// The ends of a request are a closed set: whatever a repository answers, a
/// request that ends, ends in a success of the kind it asked for or in one
/// of the failures, and each failure names the reference or the path of the
/// request itself. A path that spells none never succeeds.
pub proof fn every_end_is_possible(
    op: Operation,
    reference: Seq<char>,
    path: Seq<char>,
    answers: Seq<AnswerModel>,
    end: EndModel,
)
    requires
        feed(StateModel::start(op, reference, path), answers) == NextModel::Done(end),
    ensures
        possible_end(op, reference, path, end),
    decreases answers.len(),
{
    let start = StateModel::start(op, reference, path);
    if answers.len() > 0 {
        match feed(start, answers.drop_last()) {
            NextModel::Ask(reached) => {
                request_stays_itself(start, answers.drop_last());
            },
            NextModel::Done(earlier) => {
                every_end_is_possible(op, reference, path, answers.drop_last(), end);
            },
        }
    }
}

/// A store failure means that an object could not be read: where every
/// answer fits its question, a request ends as `StoreFailure` only on the
/// answer that an object is unreadable.
pub proof fn store_failure_means_unreadable(
    op: Operation,
    reference: Seq<char>,
    path: Seq<char>,
    answers: Seq<AnswerModel>,
)
    requires
        conversation(StateModel::start(op, reference, path), answers),
        feed(StateModel::start(op, reference, path), answers) == NextModel::Done(
            Err(Failure::StoreFailure),
        ),
    ensures
        answers.len() > 0,
        answers.last() is Unreadable,
{
    let start = StateModel::start(op, reference, path);
    request_stays_itself(start, answers.drop_last());
}

} // verus!
