use githubfetch::numbers::u64_to_string;
use githubfetch::record::ProfileRecord;
use githubfetch::render::render;

fn bare_record() -> ProfileRecord {
    ProfileRecord {
        login: None,
        id: None,
        name: None,
        company: None,
        blog: None,
        location: None,
        email: None,
        bio: None,
        public_repos: None,
        public_gists: None,
        followers: None,
        following: None,
        created_at: None,
    }
}

#[test]
fn decimal_rendering_is_exact() {
    assert_eq!(u64_to_string(0), "0");
    assert_eq!(u64_to_string(7), "7");
    assert_eq!(u64_to_string(10), "10");
    assert_eq!(u64_to_string(250), "250");
    assert_eq!(u64_to_string(1000), "1000");
    assert_eq!(u64_to_string(u64::MAX), "18446744073709551615");
}

#[test]
fn absent_fields_render_as_empty_or_zero() {
    let mut rec = bare_record();
    rec.login = Some("octocat".to_string());
    rec.id = Some(1);
    let text = render(&rec, None);
    let expected = "octocat@github\n\
                    --------------\n\
                    ID: 1\n\
                    Name: \n\
                    Company: \n\
                    Blog: \n\
                    Location: \n\
                    Email: \n\
                    Bio: \n\
                    Public Repos: 0\n\
                    Public Gists: 0\n\
                    Followers: 0\n\
                    Following: 0\n\
                    Created At: \n";
    assert_eq!(text, expected);
    assert!(text.contains("Name: \n"));
    assert!(text.contains("Company: \n"));
    assert!(text.contains("Public Repos: 0\n"));
    assert!(text.contains("Followers: 0\n"));
}

#[test]
fn fully_populated_record_renders_every_field() {
    let rec = ProfileRecord {
        login: Some("octocat".to_string()),
        id: Some(583231),
        name: Some("The Octocat".to_string()),
        company: Some("@github".to_string()),
        blog: Some("https://github.blog".to_string()),
        location: Some("San Francisco".to_string()),
        email: Some("octo@github.com".to_string()),
        bio: Some("A great cat".to_string()),
        public_repos: Some(8),
        public_gists: Some(8),
        followers: Some(3938),
        following: Some(9),
        created_at: Some("2011-01-25T18:44:36Z".to_string()),
    };
    let text = render(&rec, Some(250));
    let expected = "octocat@github\n\
                    --------------\n\
                    ID: 583231\n\
                    Name: The Octocat\n\
                    Company: @github\n\
                    Blog: https://github.blog\n\
                    Location: San Francisco\n\
                    Email: octo@github.com\n\
                    Bio: A great cat\n\
                    Public Repos: 8\n\
                    Public Gists: 8\n\
                    Followers: 3938\n\
                    Following: 9\n\
                    Total Stars: 250\n\
                    Created At: 2011-01-25T18:44:36Z\n";
    assert_eq!(text, expected);
}

#[test]
fn star_total_line_appears_only_when_computed() {
    let rec = bare_record();
    let without = render(&rec, None);
    assert!(!without.contains("Total Stars"));
    let with = render(&rec, Some(0));
    assert!(with.contains("Total Stars: 0\n"));
}

#[test]
fn all_absent_record_still_renders() {
    let text = render(&bare_record(), None);
    assert!(text.starts_with("@github\n-------\n"));
    assert!(text.contains("ID: 0\n"));
    assert!(text.ends_with("Created At: \n"));
}
