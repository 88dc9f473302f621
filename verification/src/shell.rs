//! The run plan: what one invocation does, and the fixed texts it prints.
//!
//! Help and version are terminal: when either flag is set the run prints
//! the requested banners, exits successfully, and never fetches. Otherwise
//! an empty subject is the usage-error path — the one unsuccessful outcome
//! that planning itself can reach — and a non-empty subject is fetched and
//! rendered.

use crate::args::InvocationArgs;
use vstd::prelude::*;
use vstd::string::StringExecFns;

verus! {

/// What a single invocation does, decided once from the parsed arguments.
#[derive(Debug, PartialEq, Eq)]
pub enum RunPlan {
    /// Print the usage text and/or the version banner, then end.
    Banners { help: bool, version: bool },
    /// No subject was given and no banner was requested: report the usage
    /// error.
    MissingSubject,
    /// Fetch the subject's profile, then render it.
    Fetch { subject: String },
}

/// Decide the run plan from the parsed arguments.
pub fn plan_run(args: &InvocationArgs) -> (r: RunPlan)
    ensures
        args.show_help || args.show_version ==> r == (RunPlan::Banners {
            help: args.show_help,
            version: args.show_version,
        }),
        !args.show_help && !args.show_version && args.subject@.len() == 0 ==> r
            is MissingSubject,
        !args.show_help && !args.show_version && args.subject@.len() > 0 ==> (r
            matches RunPlan::Fetch { subject } && subject@ == args.subject@),
{
    if args.show_help || args.show_version {
        RunPlan::Banners { help: args.show_help, version: args.show_version }
    } else if args.subject.as_str().is_empty() {
        RunPlan::MissingSubject
    } else {
        RunPlan::Fetch { subject: args.subject.clone() }
    }
}

/// The usage text printed for the help flag.
pub open spec fn help_text_spec() -> Seq<char> {
    "USAGE:\n    githubfetch [OPTIONS] <USERNAME>\n\nOPTIONS:\n    -h, --help       Print help\n    -V, --version    Print version\n"@
}

/// The usage text printed for the help flag.
pub fn help_text() -> (r: &'static str)
    ensures
        r@ == help_text_spec(),
{
    "USAGE:\n    githubfetch [OPTIONS] <USERNAME>\n\nOPTIONS:\n    -h, --help       Print help\n    -V, --version    Print version\n"
}

/// The block-letter art above the version banner.
pub open spec fn version_banner_art_spec() -> Seq<char> {
    "  ____ _ _   _   _       _     _____    _       _     \n / ___(_) |_| | | |_   _| |__ |  ___|__| |_ ___| |__  \n| |  _| | __| |_| | | | | '_ \\| |_ / _ \\ __/ __| '_ \\ \n| |_| | | |_|  _  | |_| | |_) |  _|  __/ || (__| | | |\n \\____|_|\\__|_| |_|\\__,_|_.__/|_|  \\___|\\__\\___|_| |_|\n\n"@
}

fn version_banner_art() -> (r: &'static str)
    ensures
        r@ == version_banner_art_spec(),
{
    "  ____ _ _   _   _       _     _____    _       _     \n / ___(_) |_| | | |_   _| |__ |  ___|__| |_ ___| |__  \n| |  _| | __| |_| | | | | '_ \\| |_ / _ \\ __/ __| '_ \\ \n| |_| | | |_|  _  | |_| | |_) |  _|  __/ || (__| | | |\n \\____|_|\\__|_| |_|\\__,_|_.__/|_|  \\___|\\__\\___|_| |_|\n\n"
}

/// The version banner: the tool's name in block letters, then its name and
/// version, what it does, and the license notice.
pub open spec fn version_text_spec() -> Seq<char> {
    version_banner_art_spec() + "GitHubFetch v"@ + crate::version_spec()
        + "\nFetch GitHub profile info by username\nDistributed under the GNU General Public License, version 3 or later\n"@
}

/// Build the version banner.
pub fn version_text() -> (r: String)
    ensures
        r@ == version_text_spec(),
{
    let mut s = String::from_str(version_banner_art());
    s.append("GitHubFetch v");
    s.append(crate::version());
    s.append(
        "\nFetch GitHub profile info by username\nDistributed under the GNU General Public License, version 3 or later\n",
    );
    proof {
        assert(s@ =~= version_text_spec());
    }
    s
}

/// The error shown, after the error tag, when no subject was given.
pub fn missing_subject_message() -> (r: &'static str)
    ensures
        r@ == "username not specified"@,
{
    "username not specified"
}

/// The hint printed, after the help tag, beside that error.
pub fn missing_subject_hint() -> (r: &'static str)
    ensures
        r@ == "use `-h` or `--help` to get usage help"@,
{
    "use `-h` or `--help` to get usage help"
}

} // verus!
