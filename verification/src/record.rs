//! The decoded profile record and the failures a fetch can meet.

use vstd::prelude::*;

verus! {

/// The remote account's public metadata, as decoded from the profile
/// endpoint. Every field is optional: a partial response leaves a slot
/// absent, and rendering substitutes the type's zero value for it.
#[derive(Debug, PartialEq, Eq)]
pub struct ProfileRecord {
    pub login: Option<String>,
    pub id: Option<u64>,
    pub name: Option<String>,
    pub company: Option<String>,
    pub blog: Option<String>,
    pub location: Option<String>,
    pub email: Option<String>,
    pub bio: Option<String>,
    pub public_repos: Option<u64>,
    pub public_gists: Option<u64>,
    pub followers: Option<u64>,
    pub following: Option<u64>,
    pub created_at: Option<String>,
}

/// Why a fetch failed: the transport could not complete a request, or a
/// response body was not JSON of the expected shape. Both are fatal: the
/// run aborts without partial output and is never retried.
#[derive(Debug, Clone, Copy, PartialEq, Eq)]
pub enum FetchError {
    Network,
    Decode,
}

impl FetchError {
    /// The message shown to the user, after the error tag.
    pub fn message(&self) -> (r: &'static str)
        ensures
            self is Network ==> r@ == "failed to query GitHub"@,
            self is Decode ==> r@ == "failed to parse JSON"@,
    {
        match self {
            FetchError::Network => "failed to query GitHub",
            FetchError::Decode => "failed to parse JSON",
        }
    }
}

} // verus!
