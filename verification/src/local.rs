//! Naming of the local working copy, and the commit it is reset to.

use vstd::prelude::*;
use vstd::string::*;
use crate::hub::CommitLocator;
use crate::hub::RepoLocator;
use vstd::utf8::encode_utf8;
use git2::Oid;

verus! {

/// An object id as the version-control library holds it.
#[verifier::external_type_specification]
#[verifier::external_body]
pub struct ExOid(Oid);

/// A hexadecimal digit, in either case.
pub open spec fn is_hex_digit(b: u8) -> bool {
    ||| 0x30 <= b <= 0x39
    ||| 0x41 <= b <= 0x46
    ||| 0x61 <= b <= 0x66
}

/// A text that names an object: one to forty hexadecimal digits.
pub open spec fn is_object_id(bytes: Seq<u8>) -> bool {
    &&& 1 <= bytes.len() <= 40
    &&& forall|i: int| 0 <= i < bytes.len() ==> is_hex_digit(#[trigger] bytes[i])
}

/// The object id that a text of hexadecimal digits names.
pub uninterp spec fn oid_named(sha: Seq<u8>) -> Oid;

/// Parses a commit hash through `git2::Oid::from_str`. Taken on trust: the
/// parse succeeds exactly on one to forty hexadecimal digits, and the id it
/// gives depends on the text alone; `oid_named` stands for that id.
#[verifier::external_body]
fn parse_oid(sha: &str) -> (oid: Option<Oid>)
    ensures
        oid is Some == is_object_id(sha.spec_bytes()),
        oid matches Some(o) ==> o == oid_named(sha.spec_bytes()),
{
    Oid::from_str(sha).ok()
}

/// Why the working copy could not be brought to a commit.
#[derive(Debug)]
pub enum CheckoutError {
    /// The commit hash is no object id.
    InvalidSha { sha: String },
    /// Cloning, fetching, resolving or resetting failed.
    Git { message: String },
}

/// Address from which the repository is cloned and fetched, with the
/// credential embedded.
pub open spec fn clone_url_of(
    user: Seq<char>,
    token: Seq<char>,
    owner: Seq<char>,
    repo: Seq<char>,
) -> Seq<char> {
    "https://"@ + user + ":"@ + token + "@github.com/"@ + owner + "/"@ + repo + ".git"@
}

/// Directory of the working copy of one repository under one status
/// context.
pub open spec fn checkout_path_of(owner: Seq<char>, repo: Seq<char>, context: Seq<char>) -> Seq<
    char,
> {
    "/tmp/crane/"@ + owner + "/"@ + repo + "/"@ + context
}

/// The single working copy of the watched repository.
#[derive(Debug)]
pub struct LocalRepo {
    remote_url: String,
    path: String,
    default_branch: String,
}

impl LocalRepo {
    /// Address the working copy is cloned from.
    pub closed spec fn remote_url_view(&self) -> Seq<char> {
        self.remote_url@
    }

    /// Directory of the working copy.
    pub closed spec fn path_view(&self) -> Seq<char> {
        self.path@
    }

    /// The branch that is fetched before every reset.
    pub closed spec fn branch_view(&self) -> Seq<char> {
        self.default_branch@
    }

    /// Names the working copy of `locator` for the given branch and status
    /// context. Nothing is touched on disk.
    pub fn new(user: &str, token: &str, locator: &RepoLocator, branch: &str, context: &str) -> (local:
        Self)
        ensures
            local.remote_url_view() == clone_url_of(user@, token@, locator.owner@, locator.repo@),
            local.path_view() == checkout_path_of(locator.owner@, locator.repo@, context@),
            local.branch_view() == branch@,
    {
        let mut url = "https://".to_owned();
        url.append(user);
        url.append(":");
        url.append(token);
        url.append("@github.com/");
        url.append(locator.owner.as_str());
        url.append("/");
        url.append(locator.repo.as_str());
        url.append(".git");
        let mut path = "/tmp/crane/".to_owned();
        path.append(locator.owner.as_str());
        path.append("/");
        path.append(locator.repo.as_str());
        path.append("/");
        path.append(context);
        LocalRepo { remote_url: url, path, default_branch: branch.to_owned() }
    }

    /// Address the working copy is cloned from.
    pub fn remote_url(&self) -> (url: &str)
        ensures
            url@ == self.remote_url_view(),
    {
        self.remote_url.as_str()
    }

    /// Directory of the working copy.
    pub fn path(&self) -> (path: &str)
        ensures
            path@ == self.path_view(),
    {
        self.path.as_str()
    }

    /// The branch that is fetched before every reset.
    pub fn default_branch(&self) -> (branch: &str)
        ensures
            branch@ == self.branch_view(),
    {
        self.default_branch.as_str()
    }

    /// Location of the build script, which is given relative to the root of
    /// the working copy.
    pub fn script_path(&self, script: &str) -> (path: String)
        ensures
            path@ == self.path_view() + "/"@ + script@,
    {
        let mut path = self.path.clone();
        path.append("/");
        path.append(script);
        path
    }

    /// The object to reset the working copy to for `commit`: the one that
    /// the commit's own hash names. Fails when the hash is no object id.
    pub fn reset_target(&self, commit: &CommitLocator) -> (target: Result<Oid, CheckoutError>)
        ensures
            is_object_id(encode_utf8(commit.sha@)) <==> target is Ok,
            target matches Ok(oid) ==> oid == oid_named(encode_utf8(commit.sha@)),
            target matches Err(e) ==> e matches CheckoutError::InvalidSha { sha } && sha@
                == commit.sha@,
    {
        match parse_oid(commit.sha.as_str()) {
            Some(oid) => Ok(oid),
            None => Err(CheckoutError::InvalidSha { sha: commit.sha.clone() }),
        }
    }
}

} // verus!
