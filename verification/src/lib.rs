//! Fetch and present a GitHub user's public profile.
//!
//! The library holds the logic of the tool: command-line argument
//! interpretation, the request URLs and header values, the pagination
//! state machine that sums repository stars, the rendering of a profile
//! record into a text block, and the run plan that decides what a single
//! invocation does. The surrounding binary performs the HTTP requests and
//! the printing.

use vstd::prelude::*;

pub mod args;
pub mod numbers;
pub mod record;
pub mod render;
pub mod shell;
pub mod stars;
pub mod urls;

verus! {

/// The tool's version, shown in the version banner and sent in the
/// User-Agent header.
pub open spec fn version_spec() -> Seq<char> {
    "0.1.0"@
}

/// The tool's version.
pub fn version() -> (r: &'static str)
    ensures
        r@ == version_spec(),
{
    "0.1.0"
}

} // verus!
