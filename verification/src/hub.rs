//! Addressing of the hosting platform's commit and status interface.

use vstd::prelude::*;
use vstd::string::*;
use vstd::utf8::encode_utf8;
use crate::hub::responses::Commit;
use reqwest::header::HeaderValue;

pub mod common;
pub mod requests;
pub mod responses;

verus! {

/// Root of the hosting platform's interface.
pub const BASE_URL: &'static str = "https://api.github.com";

/// Media type asked of the platform with every request.
pub const ACCEPT_MEDIA_TYPE: &'static str = "application/vnd.github.v3+json";

/// Name of the header that carries the credential.
pub const AUTHORIZATION_HEADER: &'static str = "authorization";

/// Name of the header that carries the media type.
pub const ACCEPT_HEADER: &'static str = "accept";

/// What can go wrong between the agent and the hosting platform.
#[derive(Debug)]
pub enum GitHubError {
    /// A header value could not be encoded; `name` is the header's name.
    InvalidHeader { name: &'static str },
    /// The platform rejected the credential.
    Auth { status: u16 },
    /// The request did not get through, or no answer came back.
    Transport { message: String },
    /// The answer did not have the expected shape.
    Parse { message: String },
}

/// A byte that may stand in a header value: anything from the space upwards
/// but the delete character, and the horizontal tab.
pub open spec fn header_byte_ok(b: u8) -> bool {
    (b >= 32 && b != 127) || b == 9
}

/// A byte string that can be sent as a header value.
pub open spec fn header_value_ok(bytes: Seq<u8>) -> bool {
    forall|i: int| 0 <= i < bytes.len() ==> header_byte_ok(#[trigger] bytes[i])
}

/// Text of the credential header for a token.
pub open spec fn authorization_text(token: Seq<char>) -> Seq<char> {
    "token "@ + token
}

/// A character that is printable ASCII: from the space up to the tilde.
pub open spec fn is_printable(c: char) -> bool {
    ' ' <= c <= '~'
}

/// A text made of printable ASCII characters can be sent as a header value.
pub proof fn lemma_printable_text_ok(text: Seq<char>)
    requires
        forall|i: int| 0 <= i < text.len() ==> is_printable(#[trigger] text[i]),
    ensures
        header_value_ok(encode_utf8(text)),
{
    assert(vstd::utf8::is_ascii_chars(text));
    vstd::utf8::is_ascii_chars_encode_utf8(text);
    let bytes = encode_utf8(text);
    assert forall|i: int| 0 <= i < bytes.len() implies header_byte_ok(#[trigger] bytes[i]) by {
        assert(is_printable(text[i]));
        assert(bytes[i] == text[i] as u8);
    }
}

/// The media type asked of the platform can always be sent.
pub proof fn lemma_accept_media_type_ok()
    ensures
        header_value_ok(encode_utf8(ACCEPT_MEDIA_TYPE@)),
{
    reveal_strlit("application/vnd.github.v3+json");
    let text = ACCEPT_MEDIA_TYPE@;
    assert(text.len() == 30);
    assert forall|i: int| 0 <= i < text.len() implies is_printable(#[trigger] text[i]) by {
        if i < 10 {
            assert(is_printable(text[0]) && is_printable(text[1]) && is_printable(text[2])
                && is_printable(text[3]) && is_printable(text[4]) && is_printable(text[5])
                && is_printable(text[6]) && is_printable(text[7]) && is_printable(text[8])
                && is_printable(text[9]));
        } else if i < 20 {
            assert(is_printable(text[10]) && is_printable(text[11]) && is_printable(text[12])
                && is_printable(text[13]) && is_printable(text[14]) && is_printable(text[15])
                && is_printable(text[16]) && is_printable(text[17]) && is_printable(text[18])
                && is_printable(text[19]));
        } else {
            assert(is_printable(text[20]) && is_printable(text[21]) && is_printable(text[22])
                && is_printable(text[23]) && is_printable(text[24]) && is_printable(text[25])
                && is_printable(text[26]) && is_printable(text[27]) && is_printable(text[28])
                && is_printable(text[29]));
        }
    }
    lemma_printable_text_ok(text);
}

/// A token made of printable ASCII characters is always accepted.
pub proof fn law_printable_token_is_accepted(token: Seq<char>)
    requires
        forall|i: int| 0 <= i < token.len() ==> is_printable(#[trigger] token[i]),
    ensures
        header_value_ok(encode_utf8(authorization_text(token))),
{
    reveal_strlit("token ");
    let prefix = "token "@;
    let text = authorization_text(token);
    assert(prefix.len() == 6);
    assert(is_printable(prefix[0]) && is_printable(prefix[1]) && is_printable(prefix[2])
        && is_printable(prefix[3]) && is_printable(prefix[4]) && is_printable(prefix[5]));
    assert forall|i: int| 0 <= i < text.len() implies is_printable(#[trigger] text[i]) by {
        if i < 6 {
            assert(text[i] == prefix[i]);
        } else {
            assert(text[i] == token[i - 6]);
        }
    }
    lemma_printable_text_ok(text);
}

/// Asks `reqwest::header::HeaderValue::from_str` whether a text can be sent
/// as a header value. Taken on trust: the answer is yes exactly when every
/// byte of the text's UTF-8 encoding is a permitted header byte.
#[verifier::external_body]
fn is_header_value(value: &str) -> (ok: bool)
    ensures
        ok == header_value_ok(value.spec_bytes()),
{
    HeaderValue::from_str(value).is_ok()
}

/// The fixed headers that accompany every request to the platform.
#[derive(Debug)]
pub struct GitHubClient {
    authorization: String,
    accept: String,
}

impl GitHubClient {
    /// Value of the credential header.
    pub closed spec fn authorization_view(&self) -> Seq<char> {
        self.authorization@
    }

    /// Value of the media type header.
    pub closed spec fn accept_view(&self) -> Seq<char> {
        self.accept@
    }

    /// Both header values can be encoded.
    pub open spec fn well_formed(&self) -> bool {
        &&& header_value_ok(encode_utf8(self.authorization_view()))
        &&& header_value_ok(encode_utf8(self.accept_view()))
    }

    /// Prepares the headers for a token. A token that cannot be encoded as
    /// a header value is refused here, before any request is made.
    pub fn new(token: &str) -> (client: Result<Self, GitHubError>)
        ensures
            header_value_ok(encode_utf8(authorization_text(token@))) <==> client is Ok,
            client matches Ok(c) ==> {
                &&& c.well_formed()
                &&& c.authorization_view() == authorization_text(token@)
                &&& c.accept_view() == ACCEPT_MEDIA_TYPE@
            },
            client matches Err(e) ==> e matches GitHubError::InvalidHeader { name } && name@
                == AUTHORIZATION_HEADER@,
    {
        let mut authorization = String::from_str("token ");
        authorization.append(token);
        if !is_header_value(authorization.as_str()) {
            return Err(GitHubError::InvalidHeader { name: AUTHORIZATION_HEADER });
        }
        proof {
            lemma_accept_media_type_ok();
        }
        if !is_header_value(ACCEPT_MEDIA_TYPE) {
            return Err(GitHubError::InvalidHeader { name: ACCEPT_HEADER });
        }
        Ok(GitHubClient { authorization, accept: String::from_str(ACCEPT_MEDIA_TYPE) })
    }

    /// Value to send in the credential header.
    pub fn authorization(&self) -> (value: &str)
        ensures
            value@ == self.authorization_view(),
    {
        self.authorization.as_str()
    }

    /// Value to send in the media type header.
    pub fn accept(&self) -> (value: &str)
        ensures
            value@ == self.accept_view(),
    {
        self.accept.as_str()
    }
}

/// Judges an answer by its HTTP status code: 401 and 403 mean that the
/// credential was rejected; every other answer goes on to be read.
pub fn check_status(status: u16) -> (verdict: Result<(), GitHubError>)
    ensures
        (status == 401 || status == 403) <==> verdict is Err,
        verdict matches Err(e) ==> e == (GitHubError::Auth { status }),
{
    if status == 401 || status == 403 {
        Err(GitHubError::Auth { status })
    } else {
        Ok(())
    }
}

/// Identifies the watched repository.
#[derive(Debug)]
pub struct RepoLocator {
    pub owner: String,
    pub repo: String,
}

/// Address of a repository on the platform.
pub open spec fn repo_url(owner: Seq<char>, repo: Seq<char>) -> Seq<char> {
    BASE_URL@ + "/repos/"@ + owner + "/"@ + repo
}

impl RepoLocator {
    /// Address under which the platform serves this repository.
    pub fn url(&self) -> (url: String)
        ensures
            url@ == repo_url(self.owner@, self.repo@),
    {
        let mut url = String::from_str(BASE_URL);
        url.append("/repos/");
        url.append(self.owner.as_str());
        url.append("/");
        url.append(self.repo.as_str());
        url
    }

    /// Address of the repository's commit listing.
    pub fn commits_url(&self) -> (url: String)
        ensures
            url@ == repo_url(self.owner@, self.repo@) + "/commits"@,
    {
        let mut url = self.url();
        url.append("/commits");
        url
    }
}

/// One exact tree state: a repository and a commit hash in it.
#[derive(Debug)]
pub struct CommitLocator<'a> {
    pub repo: &'a RepoLocator,
    pub sha: String,
}

impl<'a> CommitLocator<'a> {
    /// Address of the commit's status list; statuses are read from it and
    /// appended to it.
    pub fn statuses_url(&self) -> (url: String)
        ensures
            url@ == repo_url(self.repo.owner@, self.repo.repo@) + "/statuses/"@ + self.sha@,
    {
        let mut url = self.repo.url();
        url.append("/statuses/");
        url.append(self.sha.as_str());
        url
    }
}

/// Picks the head of a branch out of the platform's commit listing, which is
/// ordered newest first: the first entry, or nothing for an empty listing.
pub fn latest_commit<'a>(repo: &'a RepoLocator, commits: &Vec<Commit>) -> (latest: Option<
    CommitLocator<'a>,
>)
    ensures
        commits@.len() == 0 <==> latest is None,
        latest matches Some(commit) ==> commit.repo == repo && commit.sha@ == commits@[0].sha@,
{
    if commits.len() == 0 {
        None
    } else {
        Some(CommitLocator { repo, sha: commits[0].sha.clone() })
    }
}

} // verus!
