//! Repository records as a backend lists them, and the request that lists them.
use vstd::prelude::*;

verus! {

/// The account that owns a repository.
pub struct Owner {
    pub login: String,
    pub id: u64,
    pub avatar_url: String,
    pub html_url: String,
}

/// The license of a repository.
pub struct License {
    /// SPDX identifier, when the backend knows one.
    pub spdx_id: Option<String>,
}

/// One hosted repository. Timestamps are kept as the ISO-8601 text the backend sent.
pub struct Repo {
    pub id: u64,
    pub name: String,
    pub full_name: String,
    pub html_url: String,
    pub language: Option<String>,
    pub description: Option<String>,
    pub license: Option<License>,
    pub private: bool,
    pub owner: Owner,
    pub homepage: Option<String>,
    pub stargazers_count: u64,
    pub forks_count: u64,
    pub open_issues_count: u64,
    pub created_at: String,
    pub updated_at: String,
}

/// The value of the `User-Agent` header sent with every listing request.
pub const USER_AGENT: &'static str = "RustExample";

/// Why listing the repositories of one account failed.
#[derive(Clone, Copy, Debug, PartialEq, Eq, Structural)]
pub enum FetchError {
    /// The request could not be sent or its response not received.
    Transport,
    /// The backend answered with a status outside 200..=299.
    Status(u16),
    /// The body was not a JSON array of repository objects.
    Decode,
}

/// The address that lists the repositories of `account`.
pub open spec fn repos_url_of(base_url: Seq<char>, account: Seq<char>) -> Seq<char> {
    base_url + "/users/"@ + account + "/repos"@
}

/// Builds `{base_url}/users/{account}/repos`.
pub fn repos_url(base_url: &str, account: &str) -> (r: String)
    ensures
        r@ == repos_url_of(base_url@, account@),
{
    let mut url = String::from_str(base_url);
    url.append("/users/");
    url.append(account);
    url.append("/repos");
    url
}

/// Whether an HTTP status code is a success.
pub open spec fn is_success(status: u16) -> bool {
    200 <= status <= 299
}

/// Accepts a response status: only a success status lets its body be decoded.
pub fn check_status(status: u16) -> (r: Result<(), FetchError>)
    ensures
        r is Ok <==> is_success(status),
        r is Err ==> r == Err::<(), FetchError>(FetchError::Status(status)),
{
    if 200 <= status && status <= 299 {
        Ok(())
    } else {
        Err(FetchError::Status(status))
    }
}

} // verus!
