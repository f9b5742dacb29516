use gitkv::registry::{load_repos, Candidate, Registry};

use git2::Repository;

fn path_of(path: &std::path::Path) -> String {
    path.to_str().expect("path is text").to_string()
}

fn init_at(path: &std::path::Path) -> Repository {
    Repository::init(path).expect("can't initialise repository")
}

#[test]
fn new_registry_is_empty() {
    let registry = Registry::new();
    assert_eq!(registry.len(), 0);
    assert!(registry.names().is_empty());
    assert!(registry.get(&"demo".to_string()).is_none());
}

#[test]
fn insert_then_get_finds_the_repository() {
    let root = tempdir::TempDir::new("registry").expect("can't create tmp dir");
    let mut registry = Registry::new();
    registry.insert("one".to_string(), init_at(&root.path().join("one")));
    registry.insert("two".to_string(), init_at(&root.path().join("two")));
    assert_eq!(registry.len(), 2);
    let one = registry.get(&"one".to_string()).expect("one is registered");
    let two = registry.get(&"two".to_string()).expect("two is registered");
    assert!(one.path().starts_with(root.path().join("one")));
    assert!(two.path().starts_with(root.path().join("two")));
    assert!(registry.get(&"three".to_string()).is_none());
    assert!(registry.get(&"".to_string()).is_none());
}

#[test]
fn insert_under_a_name_that_is_taken_replaces() {
    let root = tempdir::TempDir::new("registry").expect("can't create tmp dir");
    let mut registry = Registry::new();
    registry.insert("demo".to_string(), init_at(&root.path().join("first")));
    registry.insert("other".to_string(), init_at(&root.path().join("other")));
    registry.insert("demo".to_string(), init_at(&root.path().join("second")));
    assert_eq!(registry.len(), 2);
    let demo = registry.get(&"demo".to_string()).expect("demo is registered");
    assert!(demo.path().starts_with(root.path().join("second")));
    let mut names = registry.names();
    names.sort();
    assert_eq!(names, vec!["demo".to_string(), "other".to_string()]);
}

#[test]
fn register_passes_over_what_did_not_open() {
    let root = tempdir::TempDir::new("registry").expect("can't create tmp dir");
    let mut registry = Registry::new();
    registry.register(
        "broken".to_string(),
        Repository::open(root.path().join("not-there")),
    );
    assert_eq!(registry.len(), 0);
    assert!(registry.get(&"broken".to_string()).is_none());
    registry.register("fine".to_string(), Repository::init(root.path().join("fine")));
    assert_eq!(registry.len(), 1);
    assert!(registry.get(&"fine".to_string()).is_some());
    registry.register("fine".to_string(), Err(git2::Error::from_str("did not open")));
    assert_eq!(registry.len(), 1);
    assert!(registry.get(&"fine".to_string()).is_some());
}

#[test]
fn load_repos_registers_repositories_under_their_stems() {
    let root = tempdir::TempDir::new("registry").expect("can't create tmp dir");
    init_at(&root.path().join("fixtures"));
    init_at(&root.path().join("bare.git"));
    let plain = tempdir::TempDir::new_in(root.path(), "plain").expect("can't create directory");
    let candidates = vec![
        Candidate {
            path: path_of(&root.path().join("fixtures")),
            is_dir: true,
        },
        Candidate {
            path: path_of(&root.path().join("bare.git")),
            is_dir: true,
        },
        Candidate {
            path: path_of(plain.path()),
            is_dir: true,
        },
        Candidate {
            path: path_of(&root.path().join("README.md")),
            is_dir: false,
        },
    ];
    let registry = load_repos(&candidates);
    let mut names = registry.names();
    names.sort();
    assert_eq!(names, vec!["bare".to_string(), "fixtures".to_string()]);
    assert_eq!(registry.len(), 2);
}

#[test]
fn load_repos_skips_what_is_not_a_directory() {
    let root = tempdir::TempDir::new("registry").expect("can't create tmp dir");
    init_at(&root.path().join("fixtures"));
    let candidates = vec![Candidate {
        path: path_of(&root.path().join("fixtures")),
        is_dir: false,
    }];
    let registry = load_repos(&candidates);
    assert_eq!(registry.len(), 0);
}

#[test]
fn load_repos_keeps_the_later_of_two_with_one_stem() {
    let root = tempdir::TempDir::new("registry").expect("can't create tmp dir");
    init_at(&root.path().join("demo.first"));
    init_at(&root.path().join("demo.second"));
    let candidates = vec![
        Candidate {
            path: path_of(&root.path().join("demo.first")),
            is_dir: true,
        },
        Candidate {
            path: path_of(&root.path().join("demo.second")),
            is_dir: true,
        },
    ];
    let registry = load_repos(&candidates);
    assert_eq!(registry.len(), 1);
    let demo = registry.get(&"demo".to_string()).expect("demo is registered");
    assert!(demo.path().starts_with(root.path().join("demo.second")));
}

#[test]
fn load_repos_of_nothing_is_empty() {
    let registry = load_repos(&Vec::new());
    assert_eq!(registry.len(), 0);
}

#[test]
fn load_repos_does_not_look_inside_a_directory() {
    let root = tempdir::TempDir::new("registry").expect("can't create tmp dir");
    let outer = tempdir::TempDir::new_in(root.path(), "outer").expect("can't create directory");
    init_at(&outer.path().join("inner"));
    init_at(&root.path().join("file-like"));
    let candidates = vec![
        Candidate {
            path: path_of(&root.path().join("file-like")),
            is_dir: false,
        },
        Candidate {
            path: path_of(outer.path()),
            is_dir: true,
        },
    ];
    let registry = load_repos(&candidates);
    assert_eq!(registry.len(), 0);
    assert!(registry.names().is_empty());
}

#[test]
fn load_repos_holds_no_more_than_there_are_directories() {
    let root = tempdir::TempDir::new("registry").expect("can't create tmp dir");
    init_at(&root.path().join("one"));
    init_at(&root.path().join("two"));
    init_at(&root.path().join("three"));
    let candidates = vec![
        Candidate {
            path: path_of(&root.path().join("one")),
            is_dir: true,
        },
        Candidate {
            path: path_of(&root.path().join("two")),
            is_dir: false,
        },
        Candidate {
            path: path_of(&root.path().join("three")),
            is_dir: false,
        },
    ];
    let registry = load_repos(&candidates);
    assert_eq!(registry.names(), vec!["one".to_string()]);
}

#[test]
fn tried_name_is_the_stem_of_a_directory_only() {
    let dir = Candidate {
        path: "/srv/repos/demo.git".to_string(),
        is_dir: true,
    };
    let file = Candidate {
        path: "/srv/repos/demo.git".to_string(),
        is_dir: false,
    };
    assert_eq!(dir.tried_name(Some("demo".to_string())), Some("demo".to_string()));
    assert_eq!(dir.tried_name(None), None);
    assert_eq!(file.tried_name(Some("demo".to_string())), None);
    assert_eq!(file.tried_name(None), None);
}

#[test]
fn names_holds_each_name_once() {
    let root = tempdir::TempDir::new("registry").expect("can't create tmp dir");
    let mut registry = Registry::new();
    for (name, at) in [("a", "1"), ("b", "2"), ("a", "3"), ("c", "4"), ("b", "5")] {
        registry.insert(name.to_string(), init_at(&root.path().join(at)));
    }
    let mut listed = registry.names();
    assert_eq!(listed.len(), registry.len());
    listed.sort();
    assert_eq!(listed, vec!["a".to_string(), "b".to_string(), "c".to_string()]);
}
