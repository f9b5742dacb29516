//! The two ends of a request as the HTTP layer sees it: from the parameters
//! of a route to the request for the gateway, and from the gateway's answer
//! to a status and a body.

use crate::error::ResolveError;
use crate::handlers::{
    CatFile, CatFileResponse, LsDir, LsDirResponse, ResolveRef, ResolveRefResponse,
};
use crate::listing::texts_view;
use crate::path::text_bytes;
use crate::trusted::{json_text, names_to_json};
use vstd::pervasive::unreached;
use vstd::prelude::*;
use vstd::string::{StrSliceExecFns, StringExecFns};

verus! {

/// The reference that a request falls back to when it names none.
pub const DEFAULT_REFERENCE: &'static str = "origin/master";

/// The status of a request that was answered.
pub const STATUS_OK: u16 = 200;

/// The status of a request that failed, whatever the failure.
pub const STATUS_NOT_FOUND: u16 = 404;

/// The parameters of a route that names a repository and a path.
#[derive(Debug)]
pub struct PathParams {
    pub repo: String,
    pub path: String,
}

/// The parameters of a route that names a repository only.
#[derive(Debug)]
pub struct RepoPathParams {
    pub repo: String,
}

/// The query of a request.
#[derive(Debug)]
pub struct QueryParams {
    pub reference: Option<String>,
}

/// What is sent back for a request.
#[derive(Debug, PartialEq, Eq)]
pub struct Reply {
    pub status: u16,
    pub body: Vec<u8>,
}

impl QueryParams {
    /// The reference that the query asks for: the one it names, or the
    /// default.
    pub open spec fn wanted_reference(&self) -> Seq<char> {
        match self.reference {
            Some(reference) => reference@,
            None => DEFAULT_REFERENCE@,
        }
    }

    /// The reference that the query asks for: the one it names, or the
    /// default.
    pub fn reference_or_default(&self) -> (reference: String)
        ensures
            reference@ == self.wanted_reference(),
    {
        match &self.reference {
            Some(reference) => reference.clone(),
            None => String::from_str(DEFAULT_REFERENCE),
        }
    }
}

/// The request to read the file that a route and a query name.
pub fn cat_file_request(path_params: &PathParams, query_params: &QueryParams) -> (req: CatFile)
    ensures
        req.repo_key@ == path_params.repo@,
        req.reference@ == query_params.wanted_reference(),
        req.path@ == path_params.path@,
{
    CatFile {
        repo_key: path_params.repo.clone(),
        reference: query_params.reference_or_default(),
        path: path_params.path.clone(),
    }
}

/// The request to list the directory that a route and a query name.
pub fn ls_dir_request(path_params: &PathParams, query_params: &QueryParams) -> (req: LsDir)
    ensures
        req.repo_key@ == path_params.repo@,
        req.reference@ == query_params.wanted_reference(),
        req.path@ == path_params.path@,
{
    LsDir {
        repo_key: path_params.repo.clone(),
        reference: query_params.reference_or_default(),
        path: path_params.path.clone(),
    }
}

/// The request to resolve the reference that a route and a query name.
pub fn resolve_ref_request(repo_path_params: &RepoPathParams, query_params: &QueryParams) -> (req:
    ResolveRef)
    ensures
        req.repo_key@ == repo_path_params.repo@,
        req.reference@ == query_params.wanted_reference(),
{
    ResolveRef {
        repo_key: repo_path_params.repo.clone(),
        reference: query_params.reference_or_default(),
    }
}

/// The reply with a text as its body.
pub fn text_reply(status: u16, text: &str) -> (reply: Reply)
    ensures
        reply.status == status,
        reply.body@ == text_bytes(text@),
{
    Reply { status, body: text.as_bytes_vec() }
}

/// The reply to a request that failed: not found, with the text of the
/// failure as its body. Every failure is reported this way.
pub fn not_found(error: &ResolveError) -> (reply: Reply)
    ensures
        reply.status == STATUS_NOT_FOUND,
        reply.body@ == text_bytes(error@.message()),
{
    let text = error.message();
    text_reply(STATUS_NOT_FOUND, text.as_str())
}

/// The reply to a `CatFile`: the bytes of the file as they came, or not
/// found.
pub fn cat_file_reply(resp: CatFileResponse) -> (reply: Reply)
    ensures
        resp.0 matches Ok(bytes) ==> reply.status == STATUS_OK && reply.body@ == bytes@,
        resp.0 matches Err(e) ==> reply.status == STATUS_NOT_FOUND && reply.body@ == text_bytes(
            e@.message(),
        ),
{
    match resp.0 {
        Ok(bytes) => Reply { status: STATUS_OK, body: bytes },
        Err(e) => not_found(&e),
    }
}

/// The reply to a `ResolveRef`: the hash as text, or not found.
pub fn resolve_ref_reply(resp: ResolveRefResponse) -> (reply: Reply)
    ensures
        resp.0 matches Ok(text) ==> reply.status == STATUS_OK && reply.body@ == text_bytes(text@),
        resp.0 matches Err(e) ==> reply.status == STATUS_NOT_FOUND && reply.body@ == text_bytes(
            e@.message(),
        ),
{
    match resp.0 {
        Ok(text) => text_reply(STATUS_OK, text.as_str()),
        Err(e) => not_found(&e),
    }
}

/// The reply to an `LsDir`: the names as a JSON list of strings, each name
/// once and in the order in which it came, or not found where the listing
/// failed.
pub fn ls_dir_reply(resp: LsDirResponse) -> (reply: Reply)
    ensures
        resp.0 matches Ok(names) ==> reply.status == STATUS_OK && reply.body@ == text_bytes(
            json_text(texts_view(names@)),
        ),
        resp.0 matches Err(e) ==> reply.status == STATUS_NOT_FOUND && reply.body@ == text_bytes(
            e@.message(),
        ),
{
    match resp.0 {
        Ok(names) => match names_to_json(&names) {
            Ok(text) => text_reply(STATUS_OK, text.as_str()),
            Err(_) => unreached(),
        },
        Err(e) => not_found(&e),
    }
}

} // verus!
