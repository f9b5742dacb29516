use gitkv::git::{
    ask, bytes_answer, commit_answer, entry_answer, has_zero, names_answer, object_id,
    reference_name, GitOps, LibGitOps,
};
use gitkv::hash::ObjectId;
use gitkv::listing::{file_bytes, list_names};
use gitkv::resolver::{Answer, Interpretation, Question};
use gitkv::walk::EntryKind;

use git2::{Oid, Repository, RepositoryInitOptions, Signature, Time};

const FILE: i32 = 0o100644;
const DIR: i32 = 0o040000;

fn new_repo(dir: &tempdir::TempDir) -> Repository {
    let mut opts = RepositoryInitOptions::new();
    opts.initial_head("main");
    Repository::init_opts(dir, &opts).expect("can't initialise repository")
}

fn tree_of(repo: &Repository, entries: Vec<(&[u8], Oid, i32)>) -> Oid {
    let mut builder = repo.treebuilder(None).expect("can't create tree builder");
    for (name, id, mode) in entries {
        builder.insert(name, id, mode).expect("can't add entry to tree");
    }
    builder.write().expect("can't write tree")
}

fn commit_on_main(repo: &Repository, tree: Oid) -> Oid {
    let time = Time::new(123_456_789, 0);
    let sig = Signature::new("Foo McBarson", "foo.mcbarson@iamarealboy.net", &time)
        .expect("couldn't create signature for commit");
    let tree = repo.find_tree(tree).expect("tree was written");
    repo.commit(Some("HEAD"), &sig, &sig, "Initial commit", &tree, &[])
        .expect("can't commit")
}

fn names(list: Vec<&str>) -> Vec<String> {
    list.iter().map(|name| name.to_string()).collect()
}

#[test]
fn list_names_gives_direct_children_in_order() {
    let dir = tempdir::TempDir::new("listing").expect("can't create tmp dir");
    let repo = new_repo(&dir);
    let blob = repo.blob(b"x").expect("can't write blob");
    let inner = tree_of(&repo, vec![(b"deep-1", blob, FILE), (b"deep-2", blob, FILE)]);
    let outer = tree_of(
        &repo,
        vec![
            (b"d", inner, DIR),
            (b"c", blob, FILE),
            (b"a", blob, FILE),
            (b"b", blob, FILE),
        ],
    );
    let tree = repo.find_tree(outer).expect("tree was written");
    assert_eq!(list_names(&tree), names(vec!["a", "b", "c", "d"]));
}

#[test]
fn list_names_of_empty_tree_is_empty() {
    let dir = tempdir::TempDir::new("listing").expect("can't create tmp dir");
    let repo = new_repo(&dir);
    let empty = tree_of(&repo, vec![]);
    let tree = repo.find_tree(empty).expect("tree was written");
    assert_eq!(list_names(&tree), Vec::<String>::new());
}

#[test]
fn list_names_leaves_out_names_that_are_not_text() {
    let dir = tempdir::TempDir::new("listing").expect("can't create tmp dir");
    let repo = new_repo(&dir);
    let blob = repo.blob(b"x").expect("can't write blob");
    let id = tree_of(
        &repo,
        vec![
            (b"first", blob, FILE),
            (&[0x66, 0xff, 0x66], blob, FILE),
            ("caf\u{e9}".as_bytes(), blob, FILE),
            (b"zz", blob, FILE),
        ],
    );
    let tree = repo.find_tree(id).expect("tree was written");
    assert_eq!(tree.len(), 4);
    let listed = list_names(&tree);
    assert_eq!(listed.len(), 3);
    assert!(listed.contains(&"first".to_string()));
    assert!(listed.contains(&"caf\u{e9}".to_string()));
    assert!(listed.contains(&"zz".to_string()));
}

#[test]
fn file_bytes_gives_the_content_of_the_blob() {
    let dir = tempdir::TempDir::new("listing").expect("can't create tmp dir");
    let repo = new_repo(&dir);
    let content = vec![0u8, 1, 2, 255, 10, 13, 10];
    let id = repo.blob(&content).expect("can't write blob");
    let blob = repo.find_blob(id).expect("blob was written");
    assert_eq!(file_bytes(&blob), content);
    let empty = repo.blob(b"").expect("can't write blob");
    let blob = repo.find_blob(empty).expect("blob was written");
    assert_eq!(file_bytes(&blob), Vec::<u8>::new());
}

#[test]
fn ls_dir_lists_children_but_not_grandchildren() {
    let dir = tempdir::TempDir::new("listing").expect("can't create tmp dir");
    let repo = new_repo(&dir);
    let blob = repo.blob(b"x").expect("can't write blob");
    let nested = tree_of(&repo, vec![(b"inner-file", blob, FILE)]);
    let a_dir = tree_of(
        &repo,
        vec![
            (b"a", blob, FILE),
            (b"b", blob, FILE),
            (b"c", blob, FILE),
            (b"d", nested, DIR),
        ],
    );
    let root = tree_of(&repo, vec![(b"top", a_dir, DIR)]);
    commit_on_main(&repo, root);
    let gh = LibGitOps {};
    assert_eq!(
        gh.ls_dir(&repo, "main", "top"),
        Ok(names(vec!["a", "b", "c", "d"]))
    );
    assert_eq!(gh.ls_dir(&repo, "main", "top/d"), Ok(names(vec!["inner-file"])));
}

#[test]
fn ask_answers_each_kind_of_question() {
    let dir = tempdir::TempDir::new("listing").expect("can't create tmp dir");
    let repo = new_repo(&dir);
    let blob = repo.blob(b"hello").expect("can't write blob");
    let sub = tree_of(&repo, vec![(b"a.txt", blob, FILE)]);
    let root = tree_of(&repo, vec![(b"dir", sub, DIR)]);
    let commit = commit_on_main(&repo, root);
    let id_of = |oid: Oid| ObjectId::new(oid.as_bytes().to_vec());

    let found = Answer::Commit {
        id: id_of(commit),
        tree: id_of(root),
    };
    let commit_question = |how: Interpretation, reference: &str| Question::Commit {
        how,
        reference: reference.to_string(),
    };
    let sha = commit.to_string();
    // as a hash, in full and abbreviated
    assert_eq!(ask(&repo, &commit_question(Interpretation::Hash, &sha)), found);
    assert_eq!(
        ask(&repo, &commit_question(Interpretation::Hash, &sha[..8])),
        found
    );
    assert_eq!(
        ask(&repo, &commit_question(Interpretation::Hash, &sha[..3])),
        Answer::NoCommit
    );
    assert_eq!(
        ask(&repo, &commit_question(Interpretation::Hash, "main")),
        Answer::NoCommit
    );
    assert_eq!(
        ask(&repo, &commit_question(Interpretation::Hash, &root.to_string())),
        Answer::NoCommit
    );
    // as a branch
    assert_eq!(ask(&repo, &commit_question(Interpretation::Branch, "main")), found);
    assert_eq!(
        ask(&repo, &commit_question(Interpretation::Branch, &sha)),
        Answer::NoCommit
    );
    assert_eq!(
        ask(&repo, &commit_question(Interpretation::Tag, "main")),
        Answer::NoCommit
    );
    assert_eq!(
        ask(&repo, &commit_question(Interpretation::RemoteBranch, "main")),
        Answer::NoCommit
    );
    // as a tag and as a tracked branch
    let object = repo.find_object(commit, None).expect("commit was written");
    repo.tag_lightweight("v1", &object, false).expect("could not create tag");
    repo.reference("refs/remotes/origin/main", commit, true, "fetched")
        .expect("could not create branch");
    assert_eq!(ask(&repo, &commit_question(Interpretation::Tag, "v1")), found);
    assert_eq!(
        ask(&repo, &commit_question(Interpretation::Branch, "v1")),
        Answer::NoCommit
    );
    assert_eq!(
        ask(&repo, &commit_question(Interpretation::RemoteBranch, "origin/main")),
        found
    );
    // as a revision expression
    assert_eq!(
        ask(&repo, &commit_question(Interpretation::Revision, "HEAD")),
        found
    );
    assert_eq!(
        ask(&repo, &commit_question(Interpretation::Revision, "main^{commit}")),
        found
    );
    for how in [
        Interpretation::Hash,
        Interpretation::Tag,
        Interpretation::Branch,
        Interpretation::RemoteBranch,
        Interpretation::Revision,
    ] {
        assert_eq!(ask(&repo, &commit_question(how, "nope")), Answer::NoCommit);
        assert_eq!(ask(&repo, &commit_question(how, "")), Answer::NoCommit);
    }
    assert_eq!(
        ask(
            &repo,
            &Question::Entry {
                tree: id_of(root),
                name: b"dir".to_vec()
            }
        ),
        Answer::Entry {
            kind: EntryKind::Tree,
            id: id_of(sub)
        }
    );
    assert_eq!(
        ask(
            &repo,
            &Question::Entry {
                tree: id_of(sub),
                name: b"a.txt".to_vec()
            }
        ),
        Answer::Entry {
            kind: EntryKind::Blob,
            id: id_of(blob)
        }
    );
    assert_eq!(
        ask(
            &repo,
            &Question::Entry {
                tree: id_of(sub),
                name: b"b.txt".to_vec()
            }
        ),
        Answer::NoEntry
    );
    assert_eq!(
        ask(
            &repo,
            &Question::Entry {
                tree: id_of(sub),
                name: b"a\0txt".to_vec()
            }
        ),
        Answer::NoEntry
    );
    assert_eq!(
        ask(&repo, &Question::Names { tree: id_of(root) }),
        Answer::Names(names(vec!["dir"]))
    );
    assert_eq!(
        ask(&repo, &Question::Bytes { blob: id_of(blob) }),
        Answer::Bytes(b"hello".to_vec())
    );
}

#[test]
fn ask_about_something_that_cannot_be_read_is_unreadable() {
    let dir = tempdir::TempDir::new("listing").expect("can't create tmp dir");
    let repo = new_repo(&dir);
    let blob = repo.blob(b"hello").expect("can't write blob");
    let id_of = |oid: Oid| ObjectId::new(oid.as_bytes().to_vec());
    let absent = ObjectId::new(vec![0x5a; 20]);
    let short = ObjectId::new(vec![1, 2, 3]);

    // no object with that hash
    assert_eq!(
        ask(&repo, &Question::Bytes { blob: ObjectId::new(vec![0x5a; 20]) }),
        Answer::Unreadable
    );
    assert_eq!(
        ask(&repo, &Question::Names { tree: absent }),
        Answer::Unreadable
    );
    // an object of another kind
    assert_eq!(
        ask(&repo, &Question::Names { tree: id_of(blob) }),
        Answer::Unreadable
    );
    assert_eq!(
        ask(
            &repo,
            &Question::Entry {
                tree: id_of(blob),
                name: b"a".to_vec()
            }
        ),
        Answer::Unreadable
    );
    // not a hash at all
    assert_eq!(
        ask(&repo, &Question::Names { tree: short }),
        Answer::Unreadable
    );
    assert_eq!(
        ask(&repo, &Question::Bytes { blob: ObjectId::new(vec![]) }),
        Answer::Unreadable
    );
}

#[test]
fn has_zero_finds_a_zero_byte_anywhere() {
    assert!(!has_zero(b""));
    assert!(!has_zero(b"a.txt"));
    assert!(has_zero(b"\0"));
    assert!(has_zero(b"\0a"));
    assert!(has_zero(b"a\0"));
    assert!(has_zero(b"a\0b"));
    assert!(!has_zero(&[1, 2, 3, 255]));
}

#[test]
fn reference_name_puts_the_namespace_in_front() {
    assert_eq!(reference_name(Interpretation::Tag, "v0.1.0"), "refs/tags/v0.1.0");
    assert_eq!(reference_name(Interpretation::Branch, "main"), "refs/heads/main");
    assert_eq!(
        reference_name(Interpretation::RemoteBranch, "origin/master"),
        "refs/remotes/origin/master"
    );
    assert_eq!(reference_name(Interpretation::Hash, "abcd"), "abcd");
    assert_eq!(reference_name(Interpretation::Revision, "HEAD~1"), "HEAD~1");
    assert_eq!(reference_name(Interpretation::Tag, ""), "refs/tags/");
}

#[test]
fn ask_tells_the_kinds_of_entries_apart() {
    // Lets a tree name a commit that the repository does not hold, as the
    // entry of a submodule does.
    git2::opts::strict_object_creation(false);
    let dir = tempdir::TempDir::new("listing").expect("can't create tmp dir");
    let repo = new_repo(&dir);
    let blob = repo.blob(b"hello").expect("can't write blob");
    let sub = tree_of(&repo, vec![(b"a.txt", blob, FILE)]);
    let elsewhere = Oid::from_str("1234567890123456789012345678901234567890").expect("valid hash");
    let root = tree_of(
        &repo,
        vec![
            (b"file", blob, FILE),
            (b"script", blob, 0o100755),
            (b"link", blob, 0o120000),
            (b"dir", sub, DIR),
            (b"module", elsewhere, 0o160000),
        ],
    );
    let id_of = |oid: Oid| ObjectId::new(oid.as_bytes().to_vec());
    let kind_of = |name: &[u8]| {
        match ask(
            &repo,
            &Question::Entry {
                tree: id_of(root),
                name: name.to_vec(),
            },
        ) {
            Answer::Entry { kind, .. } => kind,
            other => panic!("no entry: {:?}", other),
        }
    };
    assert_eq!(kind_of(b"file"), EntryKind::Blob);
    assert_eq!(kind_of(b"script"), EntryKind::Blob);
    assert_eq!(kind_of(b"link"), EntryKind::Blob);
    assert_eq!(kind_of(b"dir"), EntryKind::Tree);
    assert_eq!(kind_of(b"module"), EntryKind::Other);
    let gh = LibGitOps {};
    commit_on_main(&repo, root);
    assert_eq!(
        gh.cat_file(&repo, "main", "module"),
        Err(gitkv::ResolveError::PathTypeMismatch("module".to_string()))
    );
    assert_eq!(
        gh.ls_dir(&repo, "main", "module"),
        Err(gitkv::ResolveError::PathTypeMismatch("module".to_string()))
    );
    assert_eq!(
        gh.cat_file(&repo, "main", "module/inside"),
        Err(gitkv::ResolveError::PathTypeMismatch("module/inside".to_string()))
    );
}

#[test]
fn object_id_holds_the_bytes_of_the_hash() {
    let text = "467e981f94686d7a1db395f8acfd3cf7e7adfcd3";
    let oid = Oid::from_str(text).expect("valid hash");
    let id = object_id(&oid);
    assert_eq!(id.as_bytes(), oid.as_bytes());
    assert_eq!(id.to_text(), text);
}

#[test]
fn commit_answer_holds_the_hash_of_the_commit_and_of_its_tree() {
    let dir = tempdir::TempDir::new("listing").expect("can't create tmp dir");
    let repo = new_repo(&dir);
    let blob = repo.blob(b"hello").expect("can't write blob");
    let root = tree_of(&repo, vec![(b"a.txt", blob, FILE)]);
    let commit = commit_on_main(&repo, root);
    assert_ne!(commit, root);
    let id_of = |oid: Oid| ObjectId::new(oid.as_bytes().to_vec());
    assert_eq!(
        commit_answer(repo.find_commit(commit)),
        Answer::Commit {
            id: id_of(commit),
            tree: id_of(root)
        }
    );
    assert_eq!(commit_answer(repo.find_commit(root)), Answer::NoCommit);
    assert_eq!(
        commit_answer(Err(git2::Error::from_str("not found"))),
        Answer::NoCommit
    );
}

#[test]
fn entry_answer_holds_the_kind_and_the_hash_of_the_entry() {
    let dir = tempdir::TempDir::new("listing").expect("can't create tmp dir");
    let repo = new_repo(&dir);
    let blob = repo.blob(b"hello").expect("can't write blob");
    let sub = tree_of(&repo, vec![(b"a.txt", blob, FILE)]);
    let root = tree_of(&repo, vec![(b"dir", sub, DIR), (b"file", blob, FILE)]);
    let tree = repo.find_tree(root).expect("tree was written");
    let id_of = |oid: Oid| ObjectId::new(oid.as_bytes().to_vec());
    assert_eq!(
        entry_answer(tree.get_name("dir")),
        Answer::Entry {
            kind: EntryKind::Tree,
            id: id_of(sub)
        }
    );
    assert_eq!(
        entry_answer(tree.get_name("file")),
        Answer::Entry {
            kind: EntryKind::Blob,
            id: id_of(blob)
        }
    );
    assert_eq!(entry_answer(tree.get_name("nothing")), Answer::NoEntry);
    assert_eq!(entry_answer(None), Answer::NoEntry);
}

#[test]
fn names_answer_and_bytes_answer_hold_what_was_read() {
    let dir = tempdir::TempDir::new("listing").expect("can't create tmp dir");
    let repo = new_repo(&dir);
    let blob = repo.blob(b"hello").expect("can't write blob");
    let sub = tree_of(&repo, vec![(b"deep", blob, FILE)]);
    let root = tree_of(&repo, vec![(b"b", blob, FILE), (b"a", sub, DIR)]);
    assert_eq!(
        names_answer(repo.find_tree(root)),
        Answer::Names(names(vec!["a", "b"]))
    );
    assert_eq!(names_answer(repo.find_tree(blob)), Answer::Unreadable);
    assert_eq!(
        bytes_answer(repo.find_blob(blob)),
        Answer::Bytes(b"hello".to_vec())
    );
    assert_eq!(bytes_answer(repo.find_blob(root)), Answer::Unreadable);
}
