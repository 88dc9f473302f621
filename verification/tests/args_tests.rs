use githubfetch::args::parse_args;

fn argv(items: &[&str]) -> Vec<String> {
    let mut v = Vec::new();
    v.push("githubfetch".to_string());
    for it in items {
        v.push(it.to_string());
    }
    v
}

#[test]
fn subject_is_first_non_flag_token() {
    let r = parse_args(&argv(&["-V", "alice", "bob"]));
    assert!(!r.show_help);
    assert!(r.show_version);
    assert_eq!(r.subject, "alice");
}

#[test]
fn flags_are_order_independent() {
    let a = parse_args(&argv(&["--help", "-V"]));
    let b = parse_args(&argv(&["-V", "--help"]));
    assert_eq!(a, b);
    assert!(a.show_help);
    assert!(a.show_version);
    assert_eq!(a.subject, "");
}

#[test]
fn unknown_flags_are_dropped() {
    let r = parse_args(&argv(&["--bogus", "carol"]));
    assert!(!r.show_help);
    assert!(!r.show_version);
    assert_eq!(r.subject, "carol");
}

#[test]
fn short_and_long_forms_are_recognized() {
    assert!(parse_args(&argv(&["-h"])).show_help);
    assert!(parse_args(&argv(&["--help"])).show_help);
    assert!(parse_args(&argv(&["-V"])).show_version);
    assert!(parse_args(&argv(&["--version"])).show_version);
    assert!(!parse_args(&argv(&["-h"])).show_version);
    assert!(!parse_args(&argv(&["-V"])).show_help);
}

#[test]
fn repeated_flags_have_no_further_effect() {
    let r = parse_args(&argv(&["-h", "-h", "--help"]));
    assert!(r.show_help);
    assert!(!r.show_version);
    assert_eq!(r.subject, "");
}

#[test]
fn parsing_twice_yields_identical_results() {
    let args = argv(&["-V", "--quiet", "dave", "extra"]);
    let a = parse_args(&args);
    let b = parse_args(&args);
    assert_eq!(a, b);
}

#[test]
fn no_arguments_means_no_flags_and_no_subject() {
    let r = parse_args(&argv(&[]));
    assert!(!r.show_help);
    assert!(!r.show_version);
    assert_eq!(r.subject, "");
}

#[test]
fn empty_argument_list_is_tolerated() {
    let r = parse_args(&Vec::new());
    assert!(!r.show_help);
    assert!(!r.show_version);
    assert_eq!(r.subject, "");
}

#[test]
fn empty_token_does_not_become_the_subject() {
    let r = parse_args(&argv(&["", "erin"]));
    assert_eq!(r.subject, "erin");
}

#[test]
fn lone_dash_is_treated_as_a_flag() {
    let r = parse_args(&argv(&["-", "frank"]));
    assert_eq!(r.subject, "frank");
}

#[test]
fn later_non_flag_tokens_are_ignored() {
    let r = parse_args(&argv(&["alice", "-h", "bob", "carol"]));
    assert!(r.show_help);
    assert_eq!(r.subject, "alice");
}
