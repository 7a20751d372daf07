//! The supported repository-hosting backends and what each one is bound to.
use vstd::prelude::*;

verus! {

/// A repository-hosting backend.
#[derive(Clone, Copy, Debug, PartialEq, Eq, Structural)]
pub enum Source {
    GitHub,
    GitLab,
}

/// The base address of the backend's REST API.
pub open spec fn base_url_of(source: Source) -> Seq<char> {
    match source {
        Source::GitHub => "https://api.github.com"@,
        Source::GitLab => "https://gitlab.com/api/v4"@,
    }
}

/// The name of the environment variable that holds the backend's access token.
pub open spec fn token_var_of(source: Source) -> Seq<char> {
    match source {
        Source::GitHub => "GITHUB_TOKEN"@,
        Source::GitLab => "GITLAB_TOKEN"@,
    }
}

/// The access token was not set for the backend.
#[derive(Clone, Copy, Debug, PartialEq, Eq, Structural)]
pub struct MissingToken {
    pub source: Source,
}

/// The base address of the backend's REST API; it depends on the backend alone.
pub fn base_url(source: Source) -> (r: String)
    ensures
        r@ == base_url_of(source),
{
    match source {
        Source::GitHub => String::from_str("https://api.github.com"),
        Source::GitLab => String::from_str("https://gitlab.com/api/v4"),
    }
}

/// The name of the environment variable that the backend's token is read from.
pub fn token_var(source: Source) -> (r: &'static str)
    ensures
        r@ == token_var_of(source),
{
    match source {
        Source::GitHub => "GITHUB_TOKEN",
        Source::GitLab => "GITLAB_TOKEN",
    }
}

/// Resolves the backend's access token from the value of its environment
/// variable (`None` when the variable is not set): it fails exactly when the
/// variable is absent, and otherwise hands the value on unchanged.
pub fn token(source: Source, var_value: Option<String>) -> (r: Result<String, MissingToken>)
    ensures
        var_value.is_none() <==> r.is_err(),
        r matches Ok(t) ==> var_value matches Some(v) && t@ == v@,
        r matches Err(e) ==> e.source == source,
{
    match var_value {
        Some(v) => Ok(v),
        None => Err(MissingToken { source }),
    }
}

} // verus!
