//! Scenario tests of the interactive table engine.

use repotablo::sort::SortBy;
use repotablo::stats::{Repo, Stats};
use repotablo::ui::keys::{Key, KeyResponse};
use repotablo::ui::App;

fn repo(owner: &str, name: &str, stars: u32, forks: u32, created: i64, pushed: i64) -> Repo {
    Repo {
        owner: owner.to_string(),
        name: name.to_string(),
        stars,
        forks,
        created_at: created,
        pushed_at: pushed,
        license: "MIT".to_string(),
        description: None,
        topics: Vec::new(),
        homepage: None,
    }
}

fn three_names(names: &[&str]) -> App {
    let repos: Vec<Repo> = names
        .iter()
        .enumerate()
        .map(|(i, n)| repo("owner", n, i as u32, 0, 0, 0))
        .collect();
    App::new(Stats { repos })
}

#[test]
fn empty_set_has_no_selection_and_quits() {
    let mut app = App::new(Stats { repos: Vec::new() });
    assert_eq!(app.selected, None);
    assert_eq!(app.scroll_position, 0);
    assert!(app.filtered.is_empty());
    app.next_row();
    assert_eq!(app.selected, None);
    app.previous_row();
    assert_eq!(app.selected, None);
    assert_eq!(app.handle_key(Key::Char('o')), KeyResponse::Continue);
    assert_eq!(app.handle_key(Key::Char('y')), KeyResponse::Continue);
    // rendering text still works on an empty view
    let text = app.footer_text();
    assert!(text.contains("Sort by:"));
    assert_eq!(app.handle_key(Key::Char('q')), KeyResponse::Quit);
}

#[test]
fn sort_by_stars_descending() {
    let repos = vec![
        repo("o", "A", 5, 0, 0, 0),
        repo("o", "B", 100, 0, 0, 0),
        repo("o", "C", 50, 0, 0, 0),
    ];
    let mut app = App::new(Stats { repos });
    assert_eq!(app.handle_key(Key::Char('2')), KeyResponse::Continue);
    let names: Vec<&str> = app.items.iter().map(|r| r.name.as_str()).collect();
    assert_eq!(names, vec!["B", "C", "A"]);
    assert_eq!(app.selected, Some(0));
    assert_eq!(app.filtered, vec![0, 1, 2]);
}

#[test]
fn sort_by_stars_is_stable_on_ties() {
    let repos = vec![
        repo("o", "A", 5, 0, 0, 0),
        repo("o", "B", 5, 0, 0, 0),
        repo("o", "C", 7, 0, 0, 0),
    ];
    let mut app = App::new(Stats { repos });
    app.handle_key(Key::Char('2'));
    let names: Vec<&str> = app.items.iter().map(|r| r.name.as_str()).collect();
    assert_eq!(names, vec!["C", "A", "B"]);
}

#[test]
fn sort_by_name_ascending() {
    let mut app = three_names(&["rocket", "axum", "actix"]);
    app.handle_key(Key::Char('1'));
    let names: Vec<&str> = app.items.iter().map(|r| r.name.as_str()).collect();
    assert_eq!(names, vec!["actix", "axum", "rocket"]);
}

#[test]
fn sorting_twice_leaves_items_alone() {
    let mut app = three_names(&["rocket", "axum", "actix"]);
    app.handle_key(Key::Char('4'));
    let once: Vec<String> = app.items.iter().map(|r| r.name.clone()).collect();
    app.handle_key(Key::Char('4'));
    let twice: Vec<String> = app.items.iter().map(|r| r.name.clone()).collect();
    assert_eq!(once, twice);
}

#[test]
fn sort_by_created_and_updated() {
    let repos = vec![
        repo("o", "new", 0, 0, 300, 300),
        repo("o", "old", 0, 0, 100, 100),
        repo("o", "mid", 0, 0, 200, 200),
    ];
    let mut app = App::new(Stats { repos });
    app.handle_key(Key::Char('4'));
    let names: Vec<&str> = app.items.iter().map(|r| r.name.as_str()).collect();
    assert_eq!(names, vec!["old", "mid", "new"]);
    app.handle_key(Key::Char('5'));
    let names: Vec<&str> = app.items.iter().map(|r| r.name.as_str()).collect();
    assert_eq!(names, vec!["new", "mid", "old"]);
}

#[test]
fn filter_and_commit() {
    let mut app = three_names(&["axum", "rocket", "actix"]);
    assert_eq!(app.handle_key(Key::Char('/')), KeyResponse::Continue);
    assert!(app.filtering);
    assert_eq!(app.filter.as_deref(), Some(""));
    assert_eq!(app.filtered, vec![0, 1, 2]);
    app.handle_key(Key::Char('a'));
    app.handle_key(Key::Char('c'));
    assert_eq!(app.filter.as_deref(), Some("ac"));
    assert_eq!(app.filtered, vec![2]);
    assert_eq!(app.selected, Some(0));
    app.handle_key(Key::Enter);
    assert!(!app.filtering);
    assert_eq!(app.filter.as_deref(), Some("ac"));
    assert_eq!(app.filtered, vec![2]);
}

#[test]
fn filter_then_cancel() {
    let mut app = three_names(&["axum", "rocket", "actix"]);
    app.handle_key(Key::Char('/'));
    app.handle_key(Key::Char('a'));
    app.handle_key(Key::Char('c'));
    assert_eq!(app.filter.as_deref(), Some("ac"));
    app.handle_key(Key::Esc);
    assert_eq!(app.filter, None);
    assert!(!app.filtering);
    assert_eq!(app.filtered, vec![0, 1, 2]);
}

#[test]
fn q_while_filtering_is_a_character_not_quit() {
    let mut app = three_names(&["axum", "rocket", "actix"]);
    app.handle_key(Key::Char('/'));
    let r = app.handle_key(Key::Char('q'));
    assert_eq!(r, KeyResponse::Continue);
    assert_eq!(app.filter.as_deref(), Some("q"));
    assert!(app.filtering);
}

#[test]
fn backspace_pops_and_reapplies() {
    let mut app = three_names(&["axum", "rocket", "actix"]);
    app.handle_key(Key::Char('/'));
    app.handle_key(Key::Char('a'));
    app.handle_key(Key::Char('c'));
    assert_eq!(app.filtered, vec![2]);
    app.handle_key(Key::Backspace);
    assert_eq!(app.filter.as_deref(), Some("a"));
    assert_eq!(app.filtered, vec![0, 2]);
    app.handle_key(Key::Backspace);
    app.handle_key(Key::Backspace); // a further pop on the empty filter is a no-op
    assert_eq!(app.filter.as_deref(), Some(""));
    assert_eq!(app.filtered, vec![0, 1, 2]);
}

#[test]
fn filter_is_case_insensitive_both_ways() {
    let mut app = three_names(&["AXUM", "rocket"]);
    app.handle_key(Key::Char('/'));
    app.handle_key(Key::Char('a'));
    assert_eq!(app.filtered, vec![0]);
    app.handle_key(Key::Esc);
    app.handle_key(Key::Char('/'));
    app.handle_key(Key::Char('R'));
    assert_eq!(app.filtered, vec![1]);
}

#[test]
fn filter_without_match_empties_the_view() {
    let mut app = three_names(&["axum", "rocket"]);
    app.handle_key(Key::Char('/'));
    app.handle_key(Key::Char('z'));
    assert!(app.filtered.is_empty());
    assert_eq!(app.selected, None);
    assert_eq!(app.scroll_position, 0);
}

#[test]
fn navigation_wraps_both_ways() {
    let mut app = three_names(&["a", "b", "c"]);
    assert_eq!(app.selected, Some(0));
    app.next_row();
    assert_eq!(app.selected, Some(1));
    assert_eq!(app.scroll_position, 1);
    app.next_row();
    assert_eq!(app.selected, Some(2));
    app.next_row();
    assert_eq!(app.selected, Some(0));
    app.previous_row();
    assert_eq!(app.selected, Some(2));
    app.previous_row();
    assert_eq!(app.selected, Some(1));
}

#[test]
fn next_then_previous_restores_selection() {
    let mut app = three_names(&["a", "b", "c"]);
    app.next_row();
    let before = app.selected;
    app.next_row();
    app.previous_row();
    assert_eq!(app.selected, before);
}

#[test]
fn help_toggles() {
    let mut app = three_names(&["a"]);
    assert!(!app.show_help);
    app.handle_key(Key::Char('?'));
    assert!(app.show_help);
    app.handle_key(Key::Char('?'));
    assert!(!app.show_help);
}

#[test]
fn e_asks_for_export_while_browsing() {
    let mut app = three_names(&["a"]);
    assert_eq!(app.handle_key(Key::Char('e')), KeyResponse::Export);
    app.handle_key(Key::Char('/'));
    assert_eq!(app.handle_key(Key::Char('e')), KeyResponse::Continue);
    assert_eq!(app.filter.as_deref(), Some("e"));
}

#[test]
fn esc_quits_while_browsing() {
    let mut app = three_names(&["a"]);
    assert_eq!(app.handle_key(Key::Esc), KeyResponse::Quit);
}

#[test]
fn repo_url_scheme() {
    let app = App::new(Stats { repos: vec![repo("azzamsa", "repotablo", 1, 1, 0, 0)] });
    assert_eq!(app.repo_url(0), "https://github.com/azzamsa/repotablo");
}

#[test]
fn unknown_keys_are_ignored() {
    let mut app = three_names(&["a", "b"]);
    let before = app.selected;
    assert_eq!(app.handle_key(Key::Other), KeyResponse::Continue);
    assert_eq!(app.handle_key(Key::Char('x')), KeyResponse::Continue);
    assert_eq!(app.selected, before);
    assert_eq!(app.filtered, vec![0, 1]);
}

#[test]
fn sort_reapplies_active_filter() {
    let repos = vec![
        repo("o", "axum", 5, 0, 0, 0),
        repo("o", "actix", 100, 0, 0, 0),
        repo("o", "rocket", 50, 0, 0, 0),
    ];
    let mut app = App::new(Stats { repos });
    app.handle_key(Key::Char('/'));
    app.handle_key(Key::Char('a'));
    app.handle_key(Key::Enter);
    assert_eq!(app.filtered, vec![0, 1]);
    app.handle_key(Key::Char('2'));
    // items now actix, rocket, axum; the filter keeps actix and axum
    let names: Vec<&str> = app.items.iter().map(|r| r.name.as_str()).collect();
    assert_eq!(names, vec!["actix", "rocket", "axum"]);
    assert_eq!(app.filtered, vec![0, 2]);
    assert_eq!(app.selected, Some(0));
}
