//! Read-only access to files kept in git repositories: a repository name, a
//! reference and a path give the bytes of a file, the names in a directory,
//! or the hash of the commit that the reference stands for.
//!
//! - `resolver` decides how a request is resolved, as a function of what a
//!   repository answers; `walk` is one step of it, `path` and `hash` are what
//!   it reads and writes.
//! - `git` asks a repository what the resolver wants to know; `listing` reads
//!   what a directory and a file hold.
//! - `registry` holds the repositories by name; `handlers` is the gateway
//!   through which requests reach them.
//! - `server` turns the parameters of a route into a request and an answer
//!   into a reply.
//! - `laws` states what holds of the resolver whatever a repository holds.
//! - `trusted` declares what is taken from `git2`, `serde_json` and the
//!   standard library without proof.

pub mod error;
pub mod git;
pub mod handlers;
pub mod hash;
pub mod laws;
pub mod listing;
pub mod path;
pub mod registry;
pub mod resolver;
pub mod server;
pub mod trusted;
pub mod walk;

pub use error::{Failure, ResolveError};
pub use git::{GitOps, LibGitOps};
pub use handlers::{
    CatFile, CatFileResponse, GitRepos, LsDir, LsDirResponse, ResolveRef, ResolveRefResponse,
};
pub use registry::{load_repos, Candidate, Registry};
pub use server::{PathParams, QueryParams, RepoPathParams, Reply};
