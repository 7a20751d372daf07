//! Listing of hosted repositories for an account and its organizations,
//! over the REST APIs of GitHub and GitLab.

pub mod aggregate;
pub mod repo;
pub mod search;
pub mod source;
