//! What this library takes on trust: the types and functions of `git2`,
//! `serde_json` and the standard library that it calls, each with the
//! contract that the verified code relies on. Nothing in this file is proved.
//!
//! A repository lives on disk and may change between two calls, so a call
//! that reads it promises nothing about what it finds. The values it hands
//! back (a tree, a blob, an object id) are read once and then fixed; what is
//! promised here is about those values only.

use crate::listing::texts_view;
use crate::walk::EntryKind;
use vstd::prelude::*;
use vstd::utf8::{decode_utf8, valid_utf8};

verus! {

/// `git2::Repository`: an open repository. Opaque.
#[verifier::external_type_specification]
#[verifier::external_body]
pub struct ExRepository(git2::Repository);

/// `git2::Error`: why a call into `git2` failed. Opaque; the library never
/// looks inside.
#[verifier::external_type_specification]
#[verifier::external_body]
pub struct ExGitError(git2::Error);

/// `git2::Oid`: the content hash of an object. Opaque; its bytes are read
/// with `as_bytes`.
#[verifier::external_type_specification]
#[verifier::external_body]
pub struct ExOid(git2::Oid);

/// `git2::Object`: an object of any kind, as a revision lookup returns it.
#[verifier::external_type_specification]
#[verifier::external_body]
pub struct ExObject<'repo>(git2::Object<'repo>);

/// `git2::Reference`: a named reference of a repository, such as a tag or a
/// branch.
#[verifier::external_type_specification]
#[verifier::external_body]
pub struct ExReference<'repo>(git2::Reference<'repo>);

/// `git2::Commit`: a commit that has been read from a repository.
#[verifier::external_type_specification]
#[verifier::external_body]
pub struct ExCommit<'repo>(git2::Commit<'repo>);

/// `git2::Tree`: a directory that has been read from a repository.
#[verifier::external_type_specification]
#[verifier::external_body]
pub struct ExTree<'repo>(git2::Tree<'repo>);

/// `git2::TreeEntry`: one entry of a tree, borrowed from it.
#[verifier::external_type_specification]
#[verifier::external_body]
pub struct ExTreeEntry<'tree>(git2::TreeEntry<'tree>);

/// `git2::Blob`: a file that has been read from a repository.
#[verifier::external_type_specification]
#[verifier::external_body]
pub struct ExBlob<'repo>(git2::Blob<'repo>);

/// `git2::ObjectType`: the kinds of object. Opaque; `entry_kind` tells them
/// apart.
#[verifier::external_type_specification]
#[verifier::external_body]
pub struct ExObjectType(git2::ObjectType);

/// `serde_json::Error`: why a value could not be written as JSON. Opaque.
#[verifier::external_type_specification]
#[verifier::external_body]
pub struct ExJsonError(serde_json::Error);

/// `std::string::FromUtf8Error`: returned for bytes that are not UTF-8.
/// Opaque.
#[verifier::external_type_specification]
#[verifier::external_body]
pub struct ExFromUtf8Error(std::string::FromUtf8Error);

/// The names of a tree's entries, as bytes, in the order in which the tree
/// stores them. A `git2::Tree` is read once and never changes, so this is a
/// function of the value.
pub uninterp spec fn tree_names(tree: git2::Tree) -> Seq<Seq<u8>>;

/// The bytes that a blob holds. A `git2::Blob` is read once and never
/// changes, so this is a function of the value.
pub uninterp spec fn blob_bytes(blob: git2::Blob) -> Seq<u8>;

/// The twenty bytes that a hash holds. A `git2::Oid` is a value of its own
/// and never changes, so this is a function of the value.
pub uninterp spec fn oid_bytes(oid: git2::Oid) -> Seq<u8>;

/// The bytes of the hash of a commit. A `git2::Commit` is read once and
/// never changes, so this is a function of the value.
pub uninterp spec fn commit_hash(commit: git2::Commit) -> Seq<u8>;

/// The bytes of the hash of the root tree of a commit.
pub uninterp spec fn commit_tree_hash(commit: git2::Commit) -> Seq<u8>;

/// The bytes of the hash of the object that an entry of a tree points to. A
/// `git2::TreeEntry` belongs to a tree that is read once and never changes,
/// so this is a function of the value.
pub uninterp spec fn entry_hash(entry: git2::TreeEntry) -> Seq<u8>;

/// The kind of object that an entry of a tree points to.
pub uninterp spec fn entry_kind_of(entry: git2::TreeEntry) -> EntryKind;

/// The JSON text that `serde_json` writes for a list of strings.
pub uninterp spec fn json_text(names: Seq<Seq<char>>) -> Seq<char>;

/// `git2::Repository::open` on a path given as text. Whether it succeeds
/// depends on what is on disk: nothing is promised.
#[verifier::external_body]
pub(crate) fn open_repository(path: &str) -> (opened: Result<git2::Repository, git2::Error>) {
    git2::Repository::open(path)
}

/// `Repository::revparse_single` finds the object that a revision expression
/// stands for. The outcome depends on the repository: nothing is promised.
pub assume_specification<'a>[ git2::Repository::revparse_single ](
    repo: &'a git2::Repository,
    spec: &str,
) -> (found: Result<git2::Object<'a>, git2::Error>)
;

/// `Repository::find_object_by_prefix` finds the object whose hash, written
/// as text, is or begins with the given text. The outcome depends on the
/// repository: nothing is promised.
pub assume_specification<'a>[ git2::Repository::find_object_by_prefix ](
    repo: &'a git2::Repository,
    prefix_hash: &str,
    kind: Option<git2::ObjectType>,
) -> (found: Result<git2::Object<'a>, git2::Error>)
;

/// `Repository::find_reference` finds the reference with exactly the given
/// name. The outcome depends on the repository: nothing is promised.
pub assume_specification<'a>[ git2::Repository::find_reference ](
    repo: &'a git2::Repository,
    name: &str,
) -> (found: Result<git2::Reference<'a>, git2::Error>)
;

/// `Reference::peel_to_commit` follows a reference until it reaches a
/// commit, and fails where there is none. Nothing is promised of the outcome.
pub assume_specification<'repo>[ git2::Reference::<'repo>::peel_to_commit ](
    reference: &git2::Reference<'repo>,
) -> (peeled: Result<git2::Commit<'repo>, git2::Error>)
;

/// `Object::peel_to_commit` follows tags until it reaches a commit, and fails
/// where there is none. Nothing is promised of the outcome.
pub assume_specification<'repo>[ git2::Object::<'repo>::peel_to_commit ](
    object: &git2::Object<'repo>,
) -> (peeled: Result<git2::Commit<'repo>, git2::Error>)
;

/// `Commit::id` gives the hash of a commit.
pub assume_specification<'repo>[ git2::Commit::<'repo>::id ](commit: &git2::Commit<'repo>) -> (id:
    git2::Oid)
    ensures
        oid_bytes(id) == commit_hash(*commit),
;

/// `Commit::tree_id` gives the hash of the root tree of a commit.
pub assume_specification<'repo>[ git2::Commit::<'repo>::tree_id ](
    commit: &git2::Commit<'repo>,
) -> (id: git2::Oid)
    ensures
        oid_bytes(id) == commit_tree_hash(*commit),
;

/// `Tree::get_name_bytes` looks an entry up by its name. It panics on a name
/// with a zero byte, which `requires` leaves out. Nothing is promised of the
/// entry it returns.
pub assume_specification<'repo, 'a>[ git2::Tree::<'repo>::get_name_bytes ](
    tree: &'a git2::Tree<'repo>,
    filename: &[u8],
) -> (entry: Option<git2::TreeEntry<'a>>)
    requires
        !filename@.contains(0u8),
;

/// `TreeEntry::kind` gives the kind of object that an entry points to: a
/// blob, a tree, or something else, of which `git2` knows commits, tags and
/// kinds that it cannot name.
#[verifier::external_body]
pub(crate) fn entry_kind(entry: &git2::TreeEntry) -> (kind: EntryKind)
    ensures
        kind == entry_kind_of(*entry),
{
    match entry.kind() {
        Some(git2::ObjectType::Blob) => EntryKind::Blob,
        Some(git2::ObjectType::Tree) => EntryKind::Tree,
        Some(git2::ObjectType::Commit) => EntryKind::Other,
        Some(git2::ObjectType::Tag) => EntryKind::Other,
        Some(git2::ObjectType::Any) => EntryKind::Other,
        None => EntryKind::Other,
    }
}

/// `TreeEntry::id` gives the hash of the object that an entry points to.
pub assume_specification<'tree>[ git2::TreeEntry::<'tree>::id ](
    entry: &git2::TreeEntry<'tree>,
) -> (id: git2::Oid)
    ensures
        oid_bytes(id) == entry_hash(*entry),
;

/// `Repository::find_tree` reads the tree with the given hash. Reads the
/// repository: nothing is promised.
pub assume_specification<'a>[ git2::Repository::find_tree ](
    repo: &'a git2::Repository,
    oid: git2::Oid,
) -> (tree: Result<git2::Tree<'a>, git2::Error>)
;

/// `Repository::find_blob` reads the blob with the given hash. Reads the
/// repository: nothing is promised.
pub assume_specification<'a>[ git2::Repository::find_blob ](
    repo: &'a git2::Repository,
    oid: git2::Oid,
) -> (blob: Result<git2::Blob<'a>, git2::Error>)
;

/// `Blob::content` gives the bytes of a blob.
pub assume_specification<'repo, 'a>[ git2::Blob::<'repo>::content ](
    blob: &'a git2::Blob<'repo>,
) -> (bytes: &'a [u8])
    ensures
        bytes@ == blob_bytes(*blob),
;

/// `Tree::len` counts the entries of a tree.
pub assume_specification<'repo>[ git2::Tree::<'repo>::len ](tree: &git2::Tree<'repo>) -> (count:
    usize)
    ensures
        count == tree_names(*tree).len(),
;

/// `Tree::get` with `TreeEntry::name_bytes`: the name of the entry at a
/// position, and `None` past the last entry.
#[verifier::external_body]
pub(crate) fn name_at(tree: &git2::Tree, index: usize) -> (name: Option<Vec<u8>>)
    ensures
        name is Some <==> index < tree_names(*tree).len(),
        name matches Some(bytes) ==> bytes@ == tree_names(*tree)[index as int],
{
    match tree.get(index) {
        Some(entry) => Some(entry.name_bytes().to_vec()),
        None => None,
    }
}

/// `Oid::as_bytes` gives the bytes of a hash: twenty of them, the length of
/// SHA-1, the one format that `git2` is built with here.
pub assume_specification<'a>[ git2::Oid::as_bytes ](oid: &'a git2::Oid) -> (bytes: &'a [u8])
    ensures
        bytes@ == oid_bytes(*oid),
        bytes@.len() == 20,
;

/// `Oid::from_bytes` makes a hash of its bytes. It fails on any number of
/// bytes but twenty, and the hash that it makes holds the bytes it was given.
pub assume_specification[ git2::Oid::from_bytes ](bytes: &[u8]) -> (oid: Result<
    git2::Oid,
    git2::Error,
>)
    ensures
        bytes@.len() != 20 ==> oid is Err,
        oid matches Ok(made) ==> oid_bytes(made) == bytes@,
;

/// `serde_json::to_string` on a list of strings: the JSON of the list. It
/// cannot fail here. Every failure on this path is one of the writer, and
/// the writer is a vector of bytes in memory; a string serialises as a
/// string and a list as a list, and neither can refuse.
#[verifier::external_body]
pub(crate) fn names_to_json(names: &Vec<String>) -> (written: Result<String, serde_json::Error>)
    ensures
        written is Ok,
        written matches Ok(text) ==> text@ == json_text(texts_view(names@)),
{
    serde_json::to_string(names)
}

/// `String::push` appends one character.
#[verifier::external_body]
pub(crate) fn push_char(text: &mut String, c: char)
    ensures
        final(text)@ == old(text)@.push(c),
{
    text.push(c)
}

/// `String::from_utf8` accepts exactly the bytes that are valid UTF-8 and
/// gives the text that they encode.
#[verifier::external_body]
pub(crate) fn text_from_utf8(bytes: Vec<u8>) -> (text: Result<String, std::string::FromUtf8Error>)
    ensures
        text is Ok <==> valid_utf8(bytes@),
        text matches Ok(decoded) ==> decoded@ == decode_utf8(bytes@),
{
    String::from_utf8(bytes)
}

/// `Path::file_stem` on a path given as text: the last component without
/// its extension, where there is a last component. How a path splits into
/// components differs between platforms: nothing is promised.
#[verifier::external_body]
pub(crate) fn file_stem(path: &str) -> (stem: Option<String>) {
    match std::path::Path::new(path).file_stem() {
        Some(stem) => match stem.to_str() {
            Some(text) => Some(text.to_owned()),
            None => None,
        },
        None => None,
    }
}

} // verus!
