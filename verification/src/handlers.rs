//! The gateway: the one place through which requests reach the repositories.
//!
//! A request names a repository. The gateway looks the name up and hands the
//! request to the operations, or fails at once where no repository has that
//! name. It takes itself by `&mut`, so two requests never run on one
//! repository at the same time.

use crate::error::{Failure, ResolveError};
use crate::git::{
    cat_file_end, ls_dir_end, possible_end, reference_failure, GitOps, LibGitOps,
};
use crate::hash::is_hash_text;
use crate::registry::Registry;
use crate::resolver::Operation;
use vstd::prelude::*;

verus! {

/// A request for the bytes of a file.
#[derive(Debug)]
pub struct CatFile {
    pub repo_key: String,
    pub reference: String,
    pub path: String,
}

/// The answer to a `CatFile`.
#[derive(Debug, PartialEq, Eq)]
pub struct CatFileResponse(pub Result<Vec<u8>, ResolveError>);

/// A request for the names in a directory.
#[derive(Debug)]
pub struct LsDir {
    pub repo_key: String,
    pub reference: String,
    pub path: String,
}

/// The answer to an `LsDir`.
#[derive(Debug, PartialEq, Eq)]
pub struct LsDirResponse(pub Result<Vec<String>, ResolveError>);

/// A request for the hash of the commit that a reference stands for.
#[derive(Debug)]
pub struct ResolveRef {
    pub repo_key: String,
    pub reference: String,
}

/// The answer to a `ResolveRef`.
#[derive(Debug, PartialEq, Eq)]
pub struct ResolveRefResponse(pub Result<String, ResolveError>);

/// The repositories that are served, and the operations to read them with.
pub struct GitRepos {
    repos: Registry,
    ops: Box<dyn GitOps>,
}

impl GitRepos {
    /// The repositories behind the gateway, by name.
    pub closed spec fn repos(&self) -> Map<Seq<char>, git2::Repository> {
        self.repos@
    }

    /// A gateway to `repos`, read with `git2`.
    pub fn new(repos: Registry) -> (gateway: GitRepos)
        ensures
            gateway.repos() == repos@,
    {
        GitRepos { repos, ops: Box::new(LibGitOps {  }) }
    }

    /// Answers a `CatFile`. A name that no repository has fails with
    /// `UnknownRepo` and nothing is read; otherwise the answer is that of the
    /// read, passed on as it is.
    pub fn handle_cat_file(&mut self, req: &CatFile) -> (resp: CatFileResponse)
        ensures
            final(self).repos() == old(self).repos(),
            !old(self).repos().contains_key(req.repo_key@) ==> (resp.0 matches Err(e) && e@
                == Failure::UnknownRepo(req.repo_key@)),
            old(self).repos().contains_key(req.repo_key@) ==> possible_end(
                Operation::CatFile,
                req.reference@,
                req.path@,
                cat_file_end(resp.0),
            ),
    {
        CatFileResponse(
            match self.repos.get(&req.repo_key) {
                Some(repo) => self.ops.cat_file(repo, req.reference.as_str(), req.path.as_str()),
                None => Err(ResolveError::UnknownRepo(req.repo_key.clone())),
            },
        )
    }

    /// Answers an `LsDir`. A name that no repository has fails with
    /// `UnknownRepo` and nothing is read; otherwise the answer is that of the
    /// listing, passed on as it is.
    pub fn handle_ls_dir(&mut self, req: &LsDir) -> (resp: LsDirResponse)
        ensures
            final(self).repos() == old(self).repos(),
            !old(self).repos().contains_key(req.repo_key@) ==> (resp.0 matches Err(e) && e@
                == Failure::UnknownRepo(req.repo_key@)),
            old(self).repos().contains_key(req.repo_key@) ==> possible_end(
                Operation::LsDir,
                req.reference@,
                req.path@,
                ls_dir_end(resp.0),
            ),
    {
        LsDirResponse(
            match self.repos.get(&req.repo_key) {
                Some(repo) => self.ops.ls_dir(repo, req.reference.as_str(), req.path.as_str()),
                None => Err(ResolveError::UnknownRepo(req.repo_key.clone())),
            },
        )
    }

    /// Answers a `ResolveRef`. A name that no repository has fails with
    /// `UnknownRepo` and nothing is read; otherwise the answer is that of the
    /// resolution, passed on as it is.
    pub fn handle_resolve_ref(&mut self, req: &ResolveRef) -> (resp: ResolveRefResponse)
        ensures
            final(self).repos() == old(self).repos(),
            !old(self).repos().contains_key(req.repo_key@) ==> (resp.0 matches Err(e) && e@
                == Failure::UnknownRepo(req.repo_key@)),
            old(self).repos().contains_key(req.repo_key@) ==> (resp.0 matches Err(e)
                ==> reference_failure(e@, req.reference@)),
            resp.0 matches Ok(text) ==> is_hash_text(text@),
    {
        ResolveRefResponse(
            match self.repos.get(&req.repo_key) {
                Some(repo) => self.ops.resolve_ref(repo, req.reference.as_str()),
                None => Err(ResolveError::UnknownRepo(req.repo_key.clone())),
            },
        )
    }
}

} // verus!
