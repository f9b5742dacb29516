use gitkv::handlers::{
    CatFile, CatFileResponse, GitRepos, LsDir, LsDirResponse, ResolveRef, ResolveRefResponse,
};
use gitkv::registry::Registry;
use gitkv::ResolveError;

use git2::{Repository, RepositoryInitOptions, Signature, Time};

struct Demo {
    _root: tempdir::TempDir,
    gateway: GitRepos,
    tip: String,
}

// A gateway to one repository, `demo`, whose branch `main` holds a single
// file, `dir/a.txt`, with the content "hello".
fn demo() -> Demo {
    let root = tempdir::TempDir::new("scenario").expect("can't create tmp dir");
    let mut opts = RepositoryInitOptions::new();
    opts.initial_head("main");
    let repo = Repository::init_opts(root.path().join("demo"), &opts)
        .expect("can't initialise repository");
    let tip = {
        let blob = repo.blob(b"hello").expect("can't write blob");
        let mut dir = repo.treebuilder(None).expect("can't create tree builder");
        dir.insert("a.txt", blob, 0o100644).expect("can't add entry");
        let dir = dir.write().expect("can't write tree");
        let mut top = repo.treebuilder(None).expect("can't create tree builder");
        top.insert("dir", dir, 0o040000).expect("can't add entry");
        let top = top.write().expect("can't write tree");
        let tree = repo.find_tree(top).expect("tree was written");
        let time = Time::new(123_456_789, 0);
        let sig = Signature::new("Foo McBarson", "foo.mcbarson@iamarealboy.net", &time)
            .expect("couldn't create signature for commit");
        repo.commit(Some("HEAD"), &sig, &sig, "Initial commit", &tree, &[])
            .expect("can't commit")
            .to_string()
    };
    let mut registry = Registry::new();
    registry.insert("demo".to_string(), repo);
    Demo {
        _root: root,
        gateway: GitRepos::new(registry),
        tip,
    }
}

fn cat(demo: &mut Demo, repo: &str, reference: &str, path: &str) -> Result<Vec<u8>, ResolveError> {
    let CatFileResponse(result) = demo.gateway.handle_cat_file(&CatFile {
        repo_key: repo.to_string(),
        reference: reference.to_string(),
        path: path.to_string(),
    });
    result
}

fn ls(demo: &mut Demo, repo: &str, reference: &str, path: &str) -> Result<Vec<String>, ResolveError> {
    let LsDirResponse(result) = demo.gateway.handle_ls_dir(&LsDir {
        repo_key: repo.to_string(),
        reference: reference.to_string(),
        path: path.to_string(),
    });
    result
}

fn resolve(demo: &mut Demo, repo: &str, reference: &str) -> Result<String, ResolveError> {
    let ResolveRefResponse(result) = demo.gateway.handle_resolve_ref(&ResolveRef {
        repo_key: repo.to_string(),
        reference: reference.to_string(),
    });
    result
}

#[test]
fn demo_resolve_ref_of_main_is_the_tip() {
    let mut demo = demo();
    let tip = demo.tip.clone();
    assert_eq!(resolve(&mut demo, "demo", "main"), Ok(tip));
}

#[test]
fn demo_cat_file_gives_hello() {
    let mut demo = demo();
    assert_eq!(cat(&mut demo, "demo", "main", "dir/a.txt"), Ok(b"hello".to_vec()));
}

#[test]
fn demo_ls_dir_gives_the_one_name() {
    let mut demo = demo();
    assert_eq!(ls(&mut demo, "demo", "main", "dir"), Ok(vec!["a.txt".to_string()]));
}

#[test]
fn demo_cat_file_on_dir_is_a_mismatch() {
    let mut demo = demo();
    assert_eq!(
        cat(&mut demo, "demo", "main", "dir"),
        Err(ResolveError::PathTypeMismatch("dir".to_string()))
    );
}

#[test]
fn demo_ls_dir_on_file_is_a_mismatch() {
    let mut demo = demo();
    assert_eq!(
        ls(&mut demo, "demo", "main", "dir/a.txt"),
        Err(ResolveError::PathTypeMismatch("dir/a.txt".to_string()))
    );
}

#[test]
fn demo_cat_file_at_unknown_reference_fails() {
    let mut demo = demo();
    assert_eq!(
        cat(&mut demo, "demo", "nope", "dir/a.txt"),
        Err(ResolveError::UnknownReference("nope".to_string()))
    );
}

#[test]
fn demo_resolve_ref_of_hash_is_that_hash() {
    let mut demo = demo();
    let tip = demo.tip.clone();
    assert_eq!(resolve(&mut demo, "demo", &tip), Ok(tip));
}

#[test]
fn demo_unknown_repo_fails_before_anything_is_read() {
    let mut demo = demo();
    assert_eq!(
        cat(&mut demo, "missing", "main", "dir/a.txt"),
        Err(ResolveError::UnknownRepo("missing".to_string()))
    );
    assert_eq!(
        ls(&mut demo, "missing", "nope", ""),
        Err(ResolveError::UnknownRepo("missing".to_string()))
    );
    assert_eq!(
        resolve(&mut demo, "missing", "main"),
        Err(ResolveError::UnknownRepo("missing".to_string()))
    );
}

#[test]
fn demo_resolve_ref_of_unknown_reference_fails() {
    let mut demo = demo();
    assert_eq!(
        resolve(&mut demo, "demo", "no/such/ref"),
        Err(ResolveError::UnknownReference("no/such/ref".to_string()))
    );
}

#[test]
fn demo_requests_can_follow_one_another() {
    let mut demo = demo();
    for _ in 0..3 {
        assert_eq!(cat(&mut demo, "demo", "main", "dir/a.txt"), Ok(b"hello".to_vec()));
        assert_eq!(ls(&mut demo, "demo", "main", "dir"), Ok(vec!["a.txt".to_string()]));
        assert_eq!(
            cat(&mut demo, "demo", "main", "dir/b.txt"),
            Err(ResolveError::PathNotFound("dir/b.txt".to_string()))
        );
    }
}
