//! The repositories that are served, each under its name.
//!
//! The registry is filled once, when the service starts, and only read after
//! that. No name occurs twice in it.

use crate::trusted::{file_stem, open_repository};
use vstd::prelude::*;

verus! {

/// A repository and the name it is served under.
struct Named {
    name: String,
    repo: git2::Repository,
}

/// The names of the entries, in order.
spec fn names_of(entries: Seq<Named>) -> Seq<Seq<char>> {
    Seq::new(entries.len(), |i: int| entries[i].name@)
}

/// Repositories by name.
pub struct Registry {
    entries: Vec<Named>,
}

impl View for Registry {
    type V = Map<Seq<char>, git2::Repository>;

    /// The registry as a map from each name to its repository.
    closed spec fn view(&self) -> Map<Seq<char>, git2::Repository> {
        let names = names_of(self.entries@);
        Map::new(
            |name: Seq<char>| names.contains(name),
            |name: Seq<char>| self.entries@[names.index_of(name)].repo,
        )
    }
}

impl Registry {
    /// No name occurs twice.
    #[verifier::type_invariant]
    spec fn distinct(self) -> bool {
        names_of(self.entries@).no_duplicates()
    }

    /// How many repositories the registry holds.
    pub closed spec fn count(&self) -> nat {
        self.entries@.len()
    }

    /// A registry without repositories.
    pub fn new() -> (registry: Registry)
        ensures
            registry@ == Map::<Seq<char>, git2::Repository>::empty(),
            registry.count() == 0,
    {
        let registry = Registry { entries: Vec::new() };
        proof {
            assert(names_of(registry.entries@) == Seq::<Seq<char>>::empty());
            assert(registry@ =~= Map::<Seq<char>, git2::Repository>::empty());
        }
        registry
    }

    /// Where the entry with the given name stands, if there is one.
    fn find(&self, name: &String) -> (at: Option<usize>)
        ensures
            at matches Some(i) ==> i < self.entries@.len() && self.entries@[i as int].name@
                == name@,
            at is None ==> !names_of(self.entries@).contains(name@),
    {
        let mut i: usize = 0;
        while i < self.entries.len()
            invariant
                i <= self.entries@.len(),
                forall|k: int| 0 <= k < i ==> self.entries@[k].name@ != name@,
            decreases self.entries@.len() - i,
        {
            if self.entries[i].name == *name {
                return Some(i);
            }
            i += 1;
        }
        proof {
            let names = names_of(self.entries@);
            assert forall|k: int| 0 <= k < names.len() implies names[k] != name@ by {
                assert(names[k] == self.entries@[k].name@);
            }
        }
        None
    }

    /// Registers `repo` under `name`. A repository that was registered under
    /// the same name before is replaced.
    pub fn insert(&mut self, name: String, repo: git2::Repository)
        ensures
            final(self)@ == old(self)@.insert(name@, repo),
            final(self).count() == if old(self)@.contains_key(name@) {
                old(self).count()
            } else {
                old(self).count() + 1
            },
    {
        proof {
            use_type_invariant(&*self);
        }
        let ghost before = self.entries@;
        let ghost old_names = names_of(before);
        let ghost key = name@;
        let at = self.find(&name);
        let mut entries: Vec<Named> = Vec::new();
        std::mem::swap(&mut entries, &mut self.entries);
        match at {
            Some(i) => {
                entries.set(i, Named { name, repo });
                proof {
                    assert(names_of(entries@) =~= old_names);
                }
            },
            None => {
                entries.push(Named { name, repo });
                proof {
                    assert(names_of(entries@) =~= old_names.push(key));
                }
            },
        }
        self.entries = entries;
        proof {
            let after = self.entries@;
            let new_names = names_of(after);
            match at {
                Some(i) => {
                    assert(old_names[i as int] == key);
                    assert(old_names.contains(key));
                    assert forall|k: Seq<char>| new_names.contains(k) implies #[trigger] self@[k]
                        == old(self)@.insert(key, repo)[k] by {
                        let j = new_names.index_of(k);
                        assert(new_names[j] == k);
                        if k == key {
                            assert(j == i);
                        } else {
                            assert(j != i);
                            assert(after[j] == before[j]);
                        }
                    }
                },
                None => {
                    let n = before.len() as int;
                    assert(new_names[n] == key);
                    assert forall|k: Seq<char>|
                        new_names.contains(k) <==> (old_names.contains(k) || k == key) by {
                        if old_names.contains(k) {
                            let j = old_names.index_of(k);
                            assert(new_names[j] == k);
                        }
                        if new_names.contains(k) {
                            let j = new_names.index_of(k);
                            if j < n {
                                assert(old_names[j] == k);
                            }
                        }
                    }
                    assert forall|k: Seq<char>| new_names.contains(k) implies #[trigger] self@[k]
                        == old(self)@.insert(key, repo)[k] by {
                        let j = new_names.index_of(k);
                        assert(new_names[j] == k);
                        if k == key {
                            assert(j == n);
                        } else {
                            assert(j < n);
                            assert(old_names[j] == k);
                            assert(old_names.index_of(k) == j);
                            assert(after[j] == before[j]);
                        }
                    }
                },
            }
            assert(self@ =~= old(self)@.insert(key, repo));
        }
    }

    /// Registers what came of opening a repository: one that opened is
    /// registered under `name`, one that did not is passed over and the
    /// registry stays as it was.
    pub fn register(&mut self, name: String, opened: Result<git2::Repository, git2::Error>)
        ensures
            opened matches Ok(repo) ==> final(self)@ == old(self)@.insert(name@, repo),
            opened is Err ==> final(self)@ == old(self)@ && final(self).count() == old(
                self,
            ).count(),
            final(self).count() <= old(self).count() + 1,
    {
        match opened {
            Ok(repo) => {
                self.insert(name, repo);
            },
            Err(_) => {},
        }
    }

    /// The repository registered under `name`, if there is one.
    pub fn get(&self, name: &String) -> (found: Option<&git2::Repository>)
        ensures
            found is Some <==> self@.contains_key(name@),
            found matches Some(repo) ==> *repo == self@[name@],
    {
        proof {
            use_type_invariant(self);
        }
        match self.find(name) {
            Some(i) => {
                proof {
                    let names = names_of(self.entries@);
                    assert(names[i as int] == name@);
                    assert(names.index_of(name@) == i);
                }
                Some(&self.entries[i].repo)
            },
            None => None,
        }
    }

    /// How many repositories the registry holds.
    pub fn len(&self) -> (n: usize)
        ensures
            n == self.count(),
    {
        self.entries.len()
    }

    /// The names under which repositories are registered, each once.
    pub fn names(&self) -> (names: Vec<String>)
        ensures
            names@.len() == self.count(),
            forall|i: int, j: int|
                0 <= i < j < names@.len() ==> (#[trigger] names@[i])@ != (#[trigger] names@[j])@,
            forall|i: int| 0 <= i < names@.len() ==> self@.contains_key(#[trigger] names@[i]@),
            forall|name: Seq<char>|
                self@.contains_key(name) ==> exists|i: int|
                    0 <= i < names@.len() && #[trigger] names@[i]@ == name,
    {
        proof {
            use_type_invariant(self);
        }
        let mut names: Vec<String> = Vec::new();
        let mut i: usize = 0;
        while i < self.entries.len()
            invariant
                i <= self.entries@.len(),
                names@.len() == i,
                forall|k: int| 0 <= k < i ==> (#[trigger] names@[k])@ == self.entries@[k].name@,
            decreases self.entries@.len() - i,
        {
            names.push(self.entries[i].name.clone());
            i += 1;
        }
        proof {
            let all = names_of(self.entries@);
            assert forall|a: int, b: int| 0 <= a < b < names@.len() implies (#[trigger] names@[a])@
                != (#[trigger] names@[b])@ by {
                assert(all[a] == names@[a]@);
                assert(all[b] == names@[b]@);
            }
            assert forall|k: int| 0 <= k < names@.len() implies self@.contains_key(
                #[trigger] names@[k]@,
            ) by {
                assert(all[k] == names@[k]@);
            }
            assert forall|name: Seq<char>| self@.contains_key(name) implies exists|k: int|
                0 <= k < names@.len() && #[trigger] names@[k]@ == name by {
                let j = all.index_of(name);
                assert(all[j] == name);
                assert(names@[j]@ == name);
            }
        }
        names
    }
}

/// A directory entry that may hold a repository.
#[derive(Debug)]
pub struct Candidate {
    /// Where the entry is.
    pub path: String,
    /// Whether the entry is a directory.
    pub is_dir: bool,
}

impl Candidate {
    /// The name under which the candidate is tried, where it is tried at
    /// all: the stem of its path, if it is a directory and its path has a
    /// stem. `stem` is the stem of the path, as it was found.
    pub open spec fn name_to_try(self, stem: Option<String>) -> Option<String> {
        if self.is_dir {
            stem
        } else {
            None
        }
    }

    /// Decides whether the candidate is tried, and under which name. What is
    /// not a directory is never tried, and neither is a directory whose path
    /// has no stem.
    pub fn tried_name(&self, stem: Option<String>) -> (name: Option<String>)
        ensures
            name == self.name_to_try(stem),
    {
        if self.is_dir {
            stem
        } else {
            None
        }
    }
}

/// Whether some candidate is a directory.
pub open spec fn any_directory(candidates: Seq<Candidate>) -> bool {
    exists|i: int| 0 <= i < candidates.len() && (#[trigger] candidates[i]).is_dir
}

/// How many of the candidates are directories.
pub open spec fn directories(candidates: Seq<Candidate>) -> nat
    decreases candidates.len(),
{
    if candidates.len() == 0 {
        0
    } else if candidates.last().is_dir {
        directories(candidates.drop_last()) + 1
    } else {
        directories(candidates.drop_last())
    }
}

/// The outcome of a candidate that was tried under `name`: the name and the
/// repository where it opened, nothing where it did not.
pub open spec fn outcome_of(name: Seq<char>, opened: Result<git2::Repository, git2::Error>) -> Option<
    (Seq<char>, git2::Repository),
> {
    match opened {
        Ok(repo) => Some((name, repo)),
        Err(_) => None,
    }
}

/// The registry that comes of registering `outcomes` one after the other.
/// An outcome is the name and the repository that a candidate was registered
/// with, or nothing where the candidate was passed over. A later outcome
/// takes the place of an earlier one with the same name.
pub open spec fn registered(outcomes: Seq<Option<(Seq<char>, git2::Repository)>>) -> Map<
    Seq<char>,
    git2::Repository,
>
    decreases outcomes.len(),
{
    if outcomes.len() == 0 {
        Map::<Seq<char>, git2::Repository>::empty()
    } else {
        match outcomes.last() {
            Some((name, repo)) => registered(outcomes.drop_last()).insert(name, repo),
            None => registered(outcomes.drop_last()),
        }
    }
}

/// Whether `outcomes` can be the outcomes of `candidates`, one for each in
/// their order: only a directory has one that is not nothing.
pub open spec fn outcomes_of(
    candidates: Seq<Candidate>,
    outcomes: Seq<Option<(Seq<char>, git2::Repository)>>,
) -> bool {
    &&& outcomes.len() == candidates.len()
    &&& forall|i: int|
        0 <= i < outcomes.len() ==> (#[trigger] outcomes[i]) is Some ==> candidates[i].is_dir
}

/// Whether `registry` can come of loading `candidates`: whether there are
/// outcomes of the candidates that register to it.
pub open spec fn loaded(
    candidates: Seq<Candidate>,
    registry: Map<Seq<char>, git2::Repository>,
) -> bool {
    exists|outcomes: Seq<Option<(Seq<char>, git2::Repository)>>|
        outcomes_of(candidates, outcomes) && #[trigger] registered(outcomes) == registry
}

/// Opens the repositories among `candidates` and registers each under the
/// stem of its path.
///
/// The candidates are taken in their order. Only directories are tried. One
/// that has no stem or does not open as a repository is passed over, and so
/// is everything that is not a directory. Where two have the same stem the
/// later one stays. Which candidates open is the file system's matter; what
/// is fixed is that the registry comes of the outcomes of the candidates and
/// of nothing else, that it holds no more repositories than there are
/// directories, and nothing where there is none.
pub fn load_repos(candidates: &Vec<Candidate>) -> (registry: Registry)
    ensures
        loaded(candidates@, registry@),
        registry.count() <= directories(candidates@),
        !any_directory(candidates@) ==> registry@ == Map::<Seq<char>, git2::Repository>::empty(),
{
    let mut registry = Registry::new();
    let ghost mut outcomes: Seq<Option<(Seq<char>, git2::Repository)>> = Seq::empty();
    let mut i: usize = 0;
    proof {
        assert(candidates@.take(0) == Seq::<Candidate>::empty());
    }
    while i < candidates.len()
        invariant
            i <= candidates@.len(),
            outcomes_of(candidates@.take(i as int), outcomes),
            registry@ == registered(outcomes),
            registry.count() <= directories(candidates@.take(i as int)),
            (forall|k: int| 0 <= k < i ==> !(#[trigger] candidates@[k]).is_dir) ==> registry@
                == Map::<Seq<char>, git2::Repository>::empty(),
        decreases candidates@.len() - i,
    {
        let candidate = &candidates[i];
        let ghost before = outcomes;
        let ghost mut outcome: Option<(Seq<char>, git2::Repository)> = None;
        let stem = file_stem(candidate.path.as_str());
        match candidate.tried_name(stem) {
            Some(name) => {
                let opened = open_repository(candidate.path.as_str());
                proof {
                    outcome = outcome_of(name@, opened);
                }
                registry.register(name, opened);
            },
            None => {},
        }
        proof {
            let upto = candidates@.take(i as int + 1);
            assert(upto.drop_last() == candidates@.take(i as int));
            assert(upto.last() == candidates@[i as int]);
            outcomes = before.push(outcome);
            assert(outcomes.drop_last() == before);
            assert(outcomes.last() == outcome);
            assert forall|k: int| 0 <= k < outcomes.len() && (#[trigger] outcomes[k]) is Some
                implies upto[k].is_dir by {
                if k < before.len() {
                    assert(outcomes[k] == before[k]);
                    assert(upto[k] == candidates@.take(i as int)[k]);
                }
            }
        }
        i += 1;
    }
    proof {
        assert(candidates@.take(i as int) == candidates@);
    }
    registry
}

} // verus!
