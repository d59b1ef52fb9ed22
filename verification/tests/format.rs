//! Tests of the display formatting: compact counts, colors, and the text
//! the renderer places.

use repotablo::stats::{Repo, Stats};
use repotablo::strutil::{prettify_num, u64_dec};
use repotablo::ui::colors::{AppColor, Rgb};
use repotablo::ui::keys::Key;
use repotablo::ui::App;

const LIME: Rgb = Rgb { r: 0x84, g: 0xcc, b: 0x16 };
const YELLOW: Rgb = Rgb { r: 0xea, g: 0xb3, b: 0x08 };
const ORANGE: Rgb = Rgb { r: 0xea, g: 0x58, b: 0x0c };
const WHITE: Rgb = Rgb { r: 0xff, g: 0xff, b: 0xff };

fn repo(name: &str, stars: u32, forks: u32) -> Repo {
    Repo {
        owner: "owner".to_string(),
        name: name.to_string(),
        stars,
        forks,
        created_at: 0,
        pushed_at: 0,
        license: "MIT".to_string(),
        description: None,
        topics: Vec::new(),
        homepage: None,
    }
}

#[test]
fn compact_plain_below_a_thousand() {
    assert_eq!(prettify_num(0), "0");
    assert_eq!(prettify_num(7), "7");
    assert_eq!(prettify_num(999), "999");
}

#[test]
fn compact_thousands_band() {
    assert_eq!(prettify_num(1_000), "1.0k");
    assert_eq!(prettify_num(1_500), "1.5k");
    assert_eq!(prettify_num(1_449), "1.4k");
    assert_eq!(prettify_num(1_450), "1.5k");
    assert_eq!(prettify_num(999_949), "999.9k");
    assert_eq!(prettify_num(999_999), "1000.0k");
}

#[test]
fn compact_millions_band() {
    assert_eq!(prettify_num(1_000_000), "1.0M");
    assert_eq!(prettify_num(1_950_000), "2.0M");
    assert_eq!(prettify_num(2_536_000), "2.5M");
    assert_eq!(prettify_num(u32::MAX), "4295.0M");
}

#[test]
fn decimal_rendering() {
    assert_eq!(u64_dec(0), "0");
    assert_eq!(u64_dec(10), "10");
    assert_eq!(u64_dec(1234567), "1234567");
}

#[test]
fn popularity_color_thresholds() {
    assert_eq!(App::popularity_color(10_000), LIME);
    assert_eq!(App::popularity_color(9_999), YELLOW);
    assert_eq!(App::popularity_color(1_000), YELLOW);
    assert_eq!(App::popularity_color(999), WHITE);
}

#[test]
fn abandoned_color_thresholds() {
    let now: i64 = 1_700_000_000;
    let day: i64 = 86_400;
    assert_eq!(App::abandoned_color_at(now, now - 730 * day), ORANGE);
    assert_eq!(App::abandoned_color_at(now, now - 365 * day), YELLOW);
    assert_eq!(App::abandoned_color_at(now, now - 364 * day), WHITE);
    assert_eq!(App::abandoned_color_at(now, now + day), WHITE);
}

#[test]
fn palette_values() {
    let c = AppColor::new();
    assert_eq!(c.row_fg, WHITE);
    assert_eq!(c.selected_row_style_fg, Rgb { r: 0x4c, g: 0x1d, b: 0x95 });
    assert_eq!(c.normal_row_color, Rgb { r: 0x02, g: 0x06, b: 0x17 });
    assert_eq!(c.alt_row_color, Rgb { r: 0x0f, g: 0x17, b: 0x2a });
    assert_eq!(c.footer_border_color, Rgb { r: 0x52, g: 0x52, b: 0x52 });
}

#[test]
fn row_cells_hold_the_record() {
    let r = repo("axum", 1_500, 999);
    let cells = r.ref_array();
    assert_eq!(cells.len(), 6);
    assert_eq!(cells[0], "axum");
    assert_eq!(cells[1], "1.5k");
    assert_eq!(cells[2], "999");
    assert_eq!(cells[3], "MIT");
}

#[test]
fn row_striping_alternates() {
    let app = App::new(Stats { repos: vec![repo("a", 0, 0)] });
    assert_eq!(app.row_bg(0), app.colors.normal_row_color);
    assert_eq!(app.row_bg(1), app.colors.alt_row_color);
    assert_eq!(app.row_bg(2), app.colors.normal_row_color);
}

#[test]
fn footer_text_modes() {
    let mut app = App::new(Stats { repos: vec![repo("axum", 0, 0)] });
    let hint = app.footer_text();
    assert_eq!(
        hint,
        "Sort by: (1) Name | (2) Stars | (3) Forks | (4) Age | (5) Updated\n(O) Open | (Y) Copy | (?) Help"
    );
    app.handle_key(Key::Char('/'));
    app.handle_key(Key::Char('a'));
    assert_eq!(app.footer_text(), "Filter: a_");
}

#[test]
fn help_text_and_popup() {
    let text = App::help_text();
    assert!(text.contains("Keybindings"));
    assert!(text.contains("q/Esc  Quit"));
    assert_eq!(App::help_popup_rect(80, 24), (20, 6, 40, 12));
}

#[test]
fn header_labels_in_order() {
    let labels = App::header_labels();
    assert_eq!(labels, vec!["Name", "Stars", "Forks", "License", "Age", "Updated"]);
}

#[test]
fn loading_message_text() {
    assert_eq!(repotablo::ui::draw::loading_message(3, 10), "Fetching 3/10...");
    assert_eq!(repotablo::ui::draw::loading_message(0, 0), "Fetching 0/0...");
}

#[test]
fn export_lists_the_filtered_view_in_order() {
    let repos = vec![repo("axum", 1_500, 10), repo("rocket", 999, 5)];
    let mut app = App::new(Stats { repos });
    assert_eq!(
        app.export_markdown(),
        "| Name | Stars | Forks | License |\n| --- | --- | --- | --- |\n| axum | 1.5k | 10 | MIT |\n| rocket | 999 | 5 | MIT |\n"
    );
    app.handle_key(Key::Char('/'));
    app.handle_key(Key::Char('r'));
    app.handle_key(Key::Enter);
    assert_eq!(
        app.export_markdown(),
        "| Name | Stars | Forks | License |\n| --- | --- | --- | --- |\n| rocket | 999 | 5 | MIT |\n"
    );
}

#[test]
fn export_on_empty_view_is_the_header() {
    let app = App::new(Stats { repos: Vec::new() });
    assert_eq!(app.export_markdown(), "| Name | Stars | Forks | License |\n| --- | --- | --- | --- |\n");
}
