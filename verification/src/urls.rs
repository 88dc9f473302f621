//! The request URLs and the User-Agent header value.
//!
//! A non-empty subject determines the one profile URL, and together with a
//! page number one repository-listing URL. The caller sends the requests;
//! the exact strings are pinned down here.

use crate::numbers::dec_chars;
use crate::numbers::u64_to_string;
use vstd::prelude::*;
use vstd::string::StringExecFns;

verus! {

/// The profile endpoint for a subject.
pub open spec fn profile_url_spec(subject: Seq<char>) -> Seq<char> {
    "https://api.github.com/users/"@ + subject
}

/// Build the profile URL for the subject.
pub fn profile_url(subject: &str) -> (r: String)
    ensures
        r@ == profile_url_spec(subject@),
{
    let mut s = String::from_str("https://api.github.com/users/");
    s.append(subject);
    s
}

/// The repository-listing endpoint for a subject: one page of at most one
/// hundred entries, pages numbered from one.
pub open spec fn repos_page_url_spec(subject: Seq<char>, page: u64) -> Seq<char> {
    profile_url_spec(subject) + "/repos?per_page=100&page="@ + dec_chars(page as nat)
}

/// Build the repository-listing URL for one page.
pub fn repos_page_url(subject: &str, page: u64) -> (r: String)
    ensures
        r@ == repos_page_url_spec(subject@, page),
{
    let mut s = profile_url(subject);
    s.append("/repos?per_page=100&page=");
    let p = u64_to_string(page);
    s.append(p.as_str());
    proof {
        assert(s@ =~= repos_page_url_spec(subject@, page));
    }
    s
}

/// The User-Agent header value sent with every request: the tool's name
/// and version.
pub open spec fn user_agent_spec() -> Seq<char> {
    "GitHubFetch/"@ + crate::version_spec()
}

/// Build the User-Agent header value.
pub fn user_agent() -> (r: String)
    ensures
        r@ == user_agent_spec(),
{
    let mut s = String::from_str("GitHubFetch/");
    s.append(crate::version());
    s
}

/// The subject determines the profile URL uniquely: two subjects with the
/// same profile URL are the same subject.
pub proof fn lemma_profile_url_injective(a: Seq<char>, b: Seq<char>)
    requires
        profile_url_spec(a) == profile_url_spec(b),
    ensures
        a == b,
{
    let p = "https://api.github.com/users/"@;
    assert((p + a).len() == p.len() + a.len());
    assert((p + b).len() == p.len() + b.len());
    assert(a.len() == b.len());
    assert forall|i: int| 0 <= i < a.len() implies a[i] == b[i] by {
        assert((p + a)[p.len() + i] == a[i]);
        assert((p + b)[p.len() + i] == b[i]);
    }
    assert(a =~= b);
}

} // verus!
