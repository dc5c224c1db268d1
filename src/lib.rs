//! Client library for the releases and release assets of a repository on a
//! source-control hosting service.
//!
//! The library builds endpoint addresses, prepares authenticated requests and
//! classifies the responses that a transport hands back.
use vstd::prelude::*;

pub mod client;
pub mod error;
pub mod json;
pub mod pipeline;
pub mod release;
pub mod url;

verus! {

/// The repository that an operation addresses.
pub struct RepoInfo<'a> {
    pub owner: &'a str,
    pub repo_name: &'a str,
}

} // verus!
