use githubfetch::args::InvocationArgs;
use githubfetch::record::FetchError;
use githubfetch::shell::help_text;
use githubfetch::shell::missing_subject_hint;
use githubfetch::shell::missing_subject_message;
use githubfetch::shell::plan_run;
use githubfetch::shell::version_text;
use githubfetch::shell::RunPlan;
use githubfetch::urls::profile_url;
use githubfetch::urls::repos_page_url;
use githubfetch::urls::user_agent;
use githubfetch::version;

fn invocation(help: bool, ver: bool, subject: &str) -> InvocationArgs {
    InvocationArgs { show_help: help, show_version: ver, subject: subject.to_string() }
}

#[test]
fn help_or_version_is_terminal() {
    assert_eq!(
        plan_run(&invocation(true, false, "alice")),
        RunPlan::Banners { help: true, version: false }
    );
    assert_eq!(
        plan_run(&invocation(false, true, "")),
        RunPlan::Banners { help: false, version: true }
    );
    assert_eq!(
        plan_run(&invocation(true, true, "")),
        RunPlan::Banners { help: true, version: true }
    );
}

#[test]
fn missing_subject_is_the_error_path() {
    assert_eq!(plan_run(&invocation(false, false, "")), RunPlan::MissingSubject);
}

#[test]
fn subject_leads_to_a_fetch() {
    let plan = plan_run(&invocation(false, false, "octocat"));
    assert_eq!(plan, RunPlan::Fetch { subject: "octocat".to_string() });
}

#[test]
fn usage_text_names_both_flags() {
    let text = help_text();
    assert!(text.contains("USAGE:"));
    assert!(text.contains("githubfetch [OPTIONS] <USERNAME>"));
    assert!(text.contains("-h, --help"));
    assert!(text.contains("-V, --version"));
}

#[test]
fn version_banner_names_the_tool_and_its_version() {
    let text = version_text();
    assert!(text.contains("GitHubFetch v0.1.0"));
    assert!(text.contains("Fetch GitHub profile info by username"));
    assert!(text.contains("General Public License"));
    assert_eq!(version(), "0.1.0");
}

#[test]
fn usage_error_messages_are_fixed() {
    assert_eq!(missing_subject_message(), "username not specified");
    assert_eq!(missing_subject_hint(), "use `-h` or `--help` to get usage help");
}

#[test]
fn fetch_error_messages_are_fixed() {
    assert_eq!(FetchError::Network.message(), "failed to query GitHub");
    assert_eq!(FetchError::Decode.message(), "failed to parse JSON");
}

#[test]
fn profile_url_is_the_users_endpoint() {
    assert_eq!(profile_url("octocat"), "https://api.github.com/users/octocat");
}

#[test]
fn repos_url_carries_page_size_and_number() {
    assert_eq!(
        repos_page_url("octocat", 1),
        "https://api.github.com/users/octocat/repos?per_page=100&page=1"
    );
    assert_eq!(
        repos_page_url("octocat", 12),
        "https://api.github.com/users/octocat/repos?per_page=100&page=12"
    );
}

#[test]
fn user_agent_names_tool_and_version() {
    assert_eq!(user_agent(), "GitHubFetch/0.1.0");
}
