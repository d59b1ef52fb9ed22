//! Tests of the input resolver's verified parts, the record builders, the
//! backend services, and the error messages.

use repotablo::error::Error;
use repotablo::input::{detect_input, parse_repos, Input};
use repotablo::repo::generate_fake_names;
use repotablo::stats::{Repo, Stats};

fn chars(s: &str) -> Vec<char> {
    s.chars().collect()
}

#[test]
fn detect_input_classifies() {
    assert_eq!(detect_input(None), Input::Editor);
    assert_eq!(
        detect_input(Some("https://example.com/list".to_string())),
        Input::Url("https://example.com/list".to_string())
    );
    assert_eq!(
        detect_input(Some("http://example.com".to_string())),
        Input::Url("http://example.com".to_string())
    );
    assert_eq!(
        detect_input(Some("notes.txt".to_string())),
        Input::File("notes.txt".to_string())
    );
    assert_eq!(detect_input(Some("httpx".to_string())), Input::File("httpx".to_string()));
}

#[test]
fn parse_repos_extracts_references() {
    let text = chars(
        "see https://github.com/azzamsa/repotablo#readme and (https://github.com/rust-lang/rust) too",
    );
    let found = parse_repos(&text);
    assert_eq!(
        found,
        vec![
            ("azzamsa".to_string(), "repotablo".to_string()),
            ("rust-lang".to_string(), "rust".to_string()),
        ]
    );
}

#[test]
fn parse_repos_needs_owner_and_name() {
    assert_eq!(parse_repos(&chars("https://github.com/")), vec![]);
    assert_eq!(parse_repos(&chars("https://github.com//rust")), vec![]);
    assert_eq!(parse_repos(&chars("https://github.com/rust-lang/")), vec![]);
    assert_eq!(parse_repos(&chars("nothing here")), vec![]);
}

#[test]
fn parse_repos_stops_names_at_separators() {
    let found = parse_repos(&chars("https://github.com/a/b/tree/main https://github.com/c/d\n"));
    assert_eq!(
        found,
        vec![("a".to_string(), "b".to_string()), ("c".to_string(), "d".to_string())]
    );
}

#[test]
fn parse_link_finds_markdown_links() {
    let service = repotablo::parser::Service::new();
    let parsed = service
        .parse_link("# My Heading\n[My Link](http://example.com)\n".to_string())
        .unwrap();
    assert_eq!(parsed.links, vec!["http://example.com".to_string()]);
}

#[test]
fn get_health_is_running() {
    let service = repotablo::health::Service::new();
    let health = service.get_health().unwrap();
    assert_eq!(health.status, "running");
}

#[test]
fn error_messages() {
    assert_eq!(Error::RateLimit.message(), "GitHub API rate limit exceeded");
    assert_eq!(Error::GitHub("boom".to_string()).message(), "GitHub error: boom");
    assert_eq!(Error::Internal("x".to_string()).message(), "x");
    assert_eq!(Error::NotFound("y".to_string()).message(), "y");
    assert_eq!(Error::InvalidArgument("z".to_string()).message(), "z");
}

#[test]
fn from_fetched_fills_defaults() {
    let r = Repo::from_fetched(
        "o".to_string(),
        "n".to_string(),
        None,
        None,
        None,
        5,
        6,
        None,
        Vec::new(),
        None,
    );
    assert_eq!(r.stars, 0);
    assert_eq!(r.forks, 0);
    assert_eq!(r.license, "None");
    assert_eq!(r.created_at, 5);
    assert_eq!(r.pushed_at, 6);
    let r2 = Repo::from_fetched(
        "o".to_string(),
        "n".to_string(),
        Some(3),
        Some(4),
        Some("mit".to_string()),
        0,
        0,
        Some("desc".to_string()),
        vec!["cli".to_string()],
        Some("https://a".to_string()),
    );
    assert_eq!(r2.stars, 3);
    assert_eq!(r2.forks, 4);
    assert_eq!(r2.license, "mit");
}

#[test]
fn keep_repo_honours_the_threshold() {
    assert!(Stats::keep_repo(None, 0));
    assert!(Stats::keep_repo(Some(10), 10));
    assert!(!Stats::keep_repo(Some(10), 9));
}

#[test]
fn fake_names_come_sorted() {
    let fakes = generate_fake_names();
    assert_eq!(fakes.len(), 3);
    assert!(fakes[0].name() <= fakes[1].name());
    assert!(fakes[1].name() <= fakes[2].name());
    let cells = fakes[0].ref_array();
    assert_eq!(cells.len(), 2);
    assert_eq!(cells[0], fakes[0].name());
    assert_eq!(cells[1], fakes[0].stars());
}
