//! The interactive table engine: the view state over the fetched entries,
//! its invariants, and the state transitions the key handler performs.

pub mod colors;
pub mod draw;
pub mod keys;

use vstd::prelude::*;
use vstd::string::StringExecFns;

use crate::filter::{
    filter_indices, filter_indices_exec, lemma_filter_indices_empty_query,
    lemma_filter_indices_in_range, matches_query, query_of,
};
use crate::sort::{lemma_sort_spec_sorted, repo_lt, sort_items, sort_spec, sorted_by, SortBy};
use crate::stats::{Repo, Stats};
use crate::strutil::lowercase;
use crate::ui::colors::{app_color_spec, lime_500, orange_600, white, yellow_500, AppColor, Rgb};

verus! {

#[verifier::external_type_specification]
#[verifier::external_body]
pub struct ExClipboard(arboard::Clipboard);

/// Relies on arboard::Clipboard::new: a handle when the environment offers a
/// clipboard, nothing when it does not.
#[verifier::external_body]
fn clipboard_new() -> Option<arboard::Clipboard> {
    arboard::Clipboard::new().ok()
}

/// Relies on arboard::Clipboard::set_text: places the text onto the system
/// clipboard, best-effort; a failure is ignored and the view goes on.
#[verifier::external_body]
fn clipboard_set_text(cb: &mut arboard::Clipboard, text: String) {
    let _ = cb.set_text(text);
}

/// Relies on open::that: asks the system to open the URL with its default
/// handler, best-effort; a failure is ignored.
#[verifier::external_body]
fn open_in_browser(url: String) {
    let _ = open::that(url);
}

/// Relies on chrono::Utc::now: the current UTC time in whole seconds since
/// the epoch; nothing is promised of the value.
#[verifier::external_body]
fn now_timestamp() -> i64 {
    chrono::Utc::now().timestamp()
}

/// The table engine. `items` holds the entries in their current sort order;
/// `filtered` projects the indices of the entries on display.
pub struct App {
    pub items: Vec<Repo>,
    pub sort_by: SortBy,
    pub filtered: Vec<usize>,
    pub selected: Option<usize>,
    pub scroll_position: usize,
    pub filter: Option<String>,
    pub filtering: bool,
    pub show_help: bool,
    pub colors: AppColor,
    pub clipboard: Option<arboard::Clipboard>,
}

/// The scrollbar position a selection dictates: the selected row, or the top.
pub open spec fn scroll_of(sel: Option<usize>) -> usize {
    match sel {
        Some(i) => i,
        None => 0,
    }
}

/// The selection after one step down: advance, or wrap to the top.
pub open spec fn next_sel(sel: Option<usize>, n: nat) -> Option<usize> {
    match sel {
        None => None,
        Some(i) => if i + 1 < n {
            Some((i + 1) as usize)
        } else {
            Some(0usize)
        },
    }
}

/// The selection after one step up: retreat, or wrap to the bottom.
pub open spec fn prev_sel(sel: Option<usize>, n: nat) -> Option<usize> {
    match sel {
        None => None,
        Some(i) => if i == 0 {
            Some((n - 1) as usize)
        } else {
            Some((i - 1) as usize)
        },
    }
}

impl App {
    /// The engine's invariant: `filtered` lists exactly the matching indices
    /// in item order, the selection is absent exactly on an empty view and
    /// in range otherwise, the scrollbar follows the selection, and while
    /// the user is typing a filter value is present.
    pub open spec fn wf(&self) -> bool {
        &&& self.items@.len() <= usize::MAX
        &&& self.filtered@ == filter_indices(self.items@, query_of(self.filter))
        &&& (self.selected is None <==> self.filtered@.len() == 0)
        &&& (match self.selected {
            Some(i) => i < self.filtered@.len(),
            None => true,
        })
        &&& self.scroll_position == scroll_of(self.selected)
        &&& (self.filtering ==> self.filter is Some)
    }

    /// Builds the engine over a fetched set: initial sort key is the name,
    /// no filter, no help overlay, every entry on display, the first row
    /// selected when there is one.
    pub fn new(stats: Stats) -> (app: App)
        ensures
            app.wf(),
            app.items == stats.repos,
            app.sort_by == SortBy::Name,
            app.filter is None,
            !app.filtering,
            !app.show_help,
            app.colors == app_color_spec(),
            app.filtered@.len() == stats.repos@.len(),
            forall|k: int| 0 <= k < app.filtered@.len() ==> (#[trigger] app.filtered@[k]) == k,
            app.selected == (if stats.repos@.len() == 0 {
                None::<usize>
            } else {
                Some(0usize)
            }),
            app.scroll_position == 0,
    {
        let len = stats.repos.len();
        let mut filtered: Vec<usize> = Vec::new();
        let mut i: usize = 0;
        while i < len
            invariant
                i <= len,
                len == stats.repos@.len(),
                filtered@.len() == i,
                forall|k: int| 0 <= k < i ==> (#[trigger] filtered@[k]) == k,
            decreases len - i,
        {
            filtered.push(i);
            i = i + 1;
        }
        proof {
            lemma_filter_indices_empty_query(stats.repos@, len as int);
            assert(filtered@ =~= filter_indices(stats.repos@, query_of(None::<String>)));
        }
        let selected: Option<usize> = if len == 0 {
            None
        } else {
            Some(0)
        };
        App {
            items: stats.repos,
            sort_by: SortBy::Name,
            filtered,
            selected,
            scroll_position: 0,
            filter: None,
            filtering: false,
            show_help: false,
            colors: AppColor::new(),
            clipboard: clipboard_new(),
        }
    }

    /// Moves the selection one row down, wrapping to the top; a no-op on an
    /// empty view. The scrollbar follows.
    pub fn next_row(&mut self)
        requires
            old(self).wf(),
        ensures
            final(self).wf(),
            next_row_rel(*old(self), *final(self)),
    {
        if self.filtered.len() == 0 {
            return ;
        }
        match self.selected {
            Some(i) => {
                let n = self.filtered.len();
                let ni: usize = if i + 1 < n {
                    i + 1
                } else {
                    0
                };
                self.selected = Some(ni);
                self.scroll_position = ni;
            },
            None => {
                proof {
                    assert(false);
                }
            },
        }
    }

    /// Moves the selection one row up, wrapping to the bottom; a no-op on an
    /// empty view. The scrollbar follows.
    pub fn previous_row(&mut self)
        requires
            old(self).wf(),
        ensures
            final(self).wf(),
            prev_row_rel(*old(self), *final(self)),
    {
        if self.filtered.len() == 0 {
            return ;
        }
        match self.selected {
            Some(i) => {
                let n = self.filtered.len();
                let ni: usize = if i == 0 {
                    n - 1
                } else {
                    i - 1
                };
                self.selected = Some(ni);
                self.scroll_position = ni;
            },
            None => {
                proof {
                    assert(false);
                }
            },
        }
    }

    /// Rebuilds `filtered` from the current filter value, selects the first
    /// row of the result (none when empty) and scrolls to the top.
    pub fn apply_filter(&mut self)
        ensures
            apply_filter_rel(*old(self), *final(self)),
            (old(self).filtering ==> old(self).filter is Some) && old(self).items@.len()
                <= usize::MAX ==> final(self).wf(),
    {
        let q: String = match &self.filter {
            Some(f) => lowercase(f.as_str()),
            None => String::new(),
        };
        proof {
            assert(q@ =~= query_of(self.filter));
        }
        let idx = filter_indices_exec(&self.items, q.as_str());
        self.filtered = idx;
        if self.filtered.len() == 0 {
            self.selected = None;
        } else {
            self.selected = Some(0);
        }
        self.scroll_position = 0;
    }

    /// Sorts the entries under the current key, reapplies the filter, and
    /// puts the selection back on the first row.
    pub fn sort(&mut self)
        requires
            old(self).wf(),
        ensures
            final(self).wf(),
            sort_to_rel(*old(self), *final(self), old(self).sort_by),
            sorted_by(final(self).sort_by, final(self).items@),
    {
        sort_items(self.sort_by, &mut self.items);
        proof {
            lemma_sort_spec_sorted(self.sort_by, old(self).items@);
            crate::sort::lemma_sort_spec_len(self.sort_by, old(self).items@);
        }
        self.apply_filter();
    }

    /// The browser and clipboard URL of the entry at `i`.
    pub fn repo_url(&self, i: usize) -> (r: String)
        requires
            i < self.items@.len(),
        ensures
            r@ == url_spec(self.items@[i as int]),
    {
        let mut s = String::new();
        s.append("https://github.com/");
        s.append(self.items[i].owner.as_str());
        s.append("/");
        s.append(self.items[i].name.as_str());
        proof {
            assert(s@ =~= url_spec(self.items@[i as int]));
        }
        s
    }

    /// Opens the selected entry in the browser, best-effort; a no-op without
    /// a selection.
    pub fn open_selected(&self)
        requires
            self.wf(),
    {
        match self.selected {
            Some(s) => {
                proof {
                    lemma_filter_indices_in_range(
                        self.items@,
                        query_of(self.filter),
                        self.items@.len() as int,
                    );
                }
                let idx = self.filtered[s];
                let url = self.repo_url(idx);
                open_in_browser(url);
            },
            None => {},
        }
    }

    /// Writes the selected entry's URL to the clipboard, best-effort; a
    /// no-op without a selection or without a clipboard handle.
    pub fn copy_selected(&mut self)
        requires
            old(self).wf(),
        ensures
            final(self).wf(),
            unchanged_rel(*old(self), *final(self)),
    {
        match self.selected {
            Some(s) => {
                proof {
                    lemma_filter_indices_in_range(
                        self.items@,
                        query_of(self.filter),
                        self.items@.len() as int,
                    );
                }
                let idx = self.filtered[s];
                let url = self.repo_url(idx);
                match &mut self.clipboard {
                    Some(cb) => clipboard_set_text(cb, url),
                    None => {},
                }
            },
            None => {},
        }
    }

    /// The popularity cue of a star count: lime from ten thousand stars,
    /// yellow from a thousand, white below.
    pub fn popularity_color(stars: u32) -> (c: Rgb)
        ensures
            c == popularity_spec(stars),
    {
        if stars >= 10_000 {
            Rgb { r: 0x84, g: 0xcc, b: 0x16 }
        } else if stars >= 1_000 {
            Rgb { r: 0xea, g: 0xb3, b: 0x08 }
        } else {
            Rgb { r: 0xff, g: 0xff, b: 0xff }
        }
    }

    /// The abandonment cue of a last-push instant against a given current
    /// time: orange from two years of silence, yellow from one, white below.
    pub fn abandoned_color_at(now_secs: i64, pushed_secs: i64) -> (c: Rgb)
        ensures
            c == abandoned_spec(now_secs as int, pushed_secs as int),
    {
        if pushed_secs <= now_secs {
            let days: i128 = ((now_secs as i128) - (pushed_secs as i128)) / 86400;
            if days >= 730 {
                Rgb { r: 0xea, g: 0x58, b: 0x0c }
            } else if days >= 365 {
                Rgb { r: 0xea, g: 0xb3, b: 0x08 }
            } else {
                Rgb { r: 0xff, g: 0xff, b: 0xff }
            }
        } else {
            Rgb { r: 0xff, g: 0xff, b: 0xff }
        }
    }

    /// The abandonment cue against the clock's current time.
    pub fn abandoned_color(pushed_secs: i64) -> (c: Rgb)
        ensures
            exists|now: int| c == abandoned_spec(now, pushed_secs as int),
    {
        let now = now_timestamp();
        let c = Self::abandoned_color_at(now, pushed_secs);
        proof {
            assert(c == abandoned_spec(now as int, pushed_secs as int));
        }
        c
    }
}

/// The URL scheme emitted to the browser and the clipboard.
pub open spec fn url_spec(r: Repo) -> Seq<char> {
    "https://github.com/"@ + r.owner@ + "/"@ + r.name@
}

/// The popularity cue's thresholds.
pub open spec fn popularity_spec(stars: u32) -> Rgb {
    if stars >= 10_000 {
        lime_500()
    } else if stars >= 1_000 {
        yellow_500()
    } else {
        white()
    }
}

/// The abandonment cue's thresholds, in whole days of silence.
pub open spec fn abandoned_spec(now: int, pushed: int) -> Rgb {
    if pushed <= now && (now - pushed) / 86400 >= 730 {
        orange_600()
    } else if pushed <= now && (now - pushed) / 86400 >= 365 {
        yellow_500()
    } else {
        white()
    }
}

/// The fields no transition but sorting and filtering may touch.
pub open spec fn same_core(pre: App, post: App) -> bool {
    &&& post.items == pre.items
    &&& post.sort_by == pre.sort_by
    &&& post.filtered == pre.filtered
    &&& post.filter == pre.filter
    &&& post.filtering == pre.filtering
    &&& post.show_help == pre.show_help
    &&& post.colors == pre.colors
}

/// One step down: only the selection and the scrollbar move.
pub open spec fn next_row_rel(pre: App, post: App) -> bool {
    &&& same_core(pre, post)
    &&& post.selected == next_sel(pre.selected, pre.filtered@.len())
    &&& post.scroll_position == scroll_of(post.selected)
}

/// One step up: only the selection and the scrollbar move.
pub open spec fn prev_row_rel(pre: App, post: App) -> bool {
    &&& same_core(pre, post)
    &&& post.selected == prev_sel(pre.selected, pre.filtered@.len())
    &&& post.scroll_position == scroll_of(post.selected)
}

/// Nothing the contracts speak of changes.
pub open spec fn unchanged_rel(pre: App, post: App) -> bool {
    &&& same_core(pre, post)
    &&& post.selected == pre.selected
    &&& post.scroll_position == pre.scroll_position
}

/// A filter pass: `filtered` is rebuilt from the unchanged filter value,
/// the first row of the result is selected, the view scrolls to the top.
pub open spec fn apply_filter_rel(pre: App, post: App) -> bool {
    &&& post.items == pre.items
    &&& post.sort_by == pre.sort_by
    &&& post.filter == pre.filter
    &&& post.filtering == pre.filtering
    &&& post.show_help == pre.show_help
    &&& post.colors == pre.colors
    &&& post.filtered@ == filter_indices(pre.items@, query_of(pre.filter))
    &&& post.selected == (if post.filtered@.len() == 0 {
        None::<usize>
    } else {
        Some(0usize)
    })
    &&& post.scroll_position == 0
}

/// A sort under `sb`: the entries are stably reordered, the filter is
/// reapplied over the new order, the selection returns to the first row.
pub open spec fn sort_to_rel(pre: App, post: App, sb: SortBy) -> bool {
    &&& post.sort_by == sb
    &&& post.items@ == sort_spec(sb, pre.items@)
    &&& post.filter == pre.filter
    &&& post.filtering == pre.filtering
    &&& post.show_help == pre.show_help
    &&& post.colors == pre.colors
    &&& post.filtered@ == filter_indices(post.items@, query_of(post.filter))
    &&& post.selected == (if post.filtered@.len() == 0 {
        None::<usize>
    } else {
        Some(0usize)
    })
    &&& post.scroll_position == 0
}

/// Stepping down and then up leaves the selection where it was, whenever at
/// least two rows are on display.
pub proof fn lemma_next_then_prev_selected(s: App, t: App, u: App)
    requires
        s.wf(),
        s.filtered@.len() >= 2,
        next_row_rel(s, t),
        prev_row_rel(t, u),
    ensures
        u.selected == s.selected,
{
    broadcast use vstd::std_specs::vec::axiom_spec_len;

    let n = s.filtered@.len();
    assert(s.filtered.len() == n);
    match s.selected {
        Some(i) => {
            if i + 1 < n {
                assert(t.selected == Some((i + 1) as usize));
                assert(u.selected == Some(i));
            } else {
                assert(t.selected == Some(0usize));
                assert(u.selected == Some((n - 1) as usize));
                assert(i == n - 1);
            }
        },
        None => {
            assert(false);
        },
    }
}

/// A filter pass is idempotent: a second pass over an unchanged filter
/// value leaves the view exactly as the first left it.
pub proof fn lemma_apply_filter_idempotent(s: App, t: App, u: App)
    requires
        apply_filter_rel(s, t),
        apply_filter_rel(t, u),
    ensures
        u.filtered@ == t.filtered@,
        u.selected == t.selected,
        u.scroll_position == t.scroll_position,
        u.items == t.items,
        u.filter == t.filter,
{
}

/// The displayed rows are sorted under the current comparator whenever the
/// entries are -- and `sort` leaves them so. The projection lists indices in
/// increasing item order, so the rows inherit the entries' order.
pub proof fn lemma_filtered_sorted(app: App)
    requires
        app.wf(),
        sorted_by(app.sort_by, app.items@),
    ensures
        forall|k1: int, k2: int|
            0 <= k1 < k2 < app.filtered@.len() ==> !repo_lt(
                app.sort_by,
                app.items@[(#[trigger] app.filtered@[k2]) as int],
                app.items@[(#[trigger] app.filtered@[k1]) as int],
            ),
{
    let q = query_of(app.filter);
    crate::filter::lemma_filter_indices_in_range(app.items@, q, app.items@.len() as int);
    crate::filter::lemma_filter_indices_increasing(app.items@, q, app.items@.len() as int);
}

/// Every row on display passes the filter: its index is in range and its
/// entry's lowercased name contains the query.
pub proof fn lemma_filtered_matches(app: App)
    requires
        app.wf(),
    ensures
        forall|k: int|
            0 <= k < app.filtered@.len() ==> (#[trigger] app.filtered@[k]) < app.items@.len()
                && matches_query(
                app.items@[app.filtered@[k] as int],
                query_of(app.filter),
            ),
{
    lemma_filter_indices_in_range(app.items@, query_of(app.filter), app.items@.len() as int);
}

} // verus!
