use repo_hub::source::{base_url, token, token_var, MissingToken, Source};

#[test]
fn base_url_of_github() {
    assert_eq!(base_url(Source::GitHub), "https://api.github.com");
}

#[test]
fn base_url_of_gitlab() {
    assert_eq!(base_url(Source::GitLab), "https://gitlab.com/api/v4");
}

#[test]
fn token_variable_names() {
    assert_eq!(token_var(Source::GitHub), "GITHUB_TOKEN");
    assert_eq!(token_var(Source::GitLab), "GITLAB_TOKEN");
}

#[test]
fn token_present_is_passed_on() {
    assert_eq!(token(Source::GitHub, Some(String::from("abc"))), Ok(String::from("abc")));
    assert_eq!(token(Source::GitLab, Some(String::new())), Ok(String::new()));
}

#[test]
fn token_absent_fails_for_each_backend() {
    assert_eq!(token(Source::GitHub, None), Err(MissingToken { source: Source::GitHub }));
    assert_eq!(token(Source::GitLab, None), Err(MissingToken { source: Source::GitLab }));
}
