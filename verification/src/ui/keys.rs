//! The key handler: a state machine over the engine with two modes,
//! browsing and filter-editing.

use vstd::prelude::*;

use crate::filter::{filter_indices, query_of};
use crate::sort::SortBy;
use crate::strutil::{pop_char, push_char};
use crate::ui::{next_row_rel, prev_row_rel, sort_to_rel, unchanged_rel, App};

verus! {

/// One keyboard event, as the terminal layer hands it in.
#[derive(Clone, Copy, Debug, PartialEq, Eq, Structural)]
pub enum Key {
    Char(char),
    Up,
    Down,
    Enter,
    Backspace,
    Esc,
    Other,
}

/// What the event loop does after one key: go on, quit, or trigger the
/// markdown export.
#[derive(Clone, Copy, Debug, PartialEq, Eq, Structural)]
pub enum KeyResponse {
    Continue,
    Quit,
    Export,
}

/// The response a key earns: quit on `q` or Esc while browsing, export on
/// `e` while browsing, otherwise go on. While filter-editing every key is
/// consumed.
pub open spec fn key_response_spec(pre: App, key: Key) -> KeyResponse {
    if pre.filtering {
        KeyResponse::Continue
    } else {
        match key {
            Key::Char(c) => if c == 'q' {
                KeyResponse::Quit
            } else if c == 'e' {
                KeyResponse::Export
            } else {
                KeyResponse::Continue
            },
            Key::Esc => KeyResponse::Quit,
            _ => KeyResponse::Continue,
        }
    }
}

/// A typed character lands at the end of the filter and the filter is
/// reapplied.
pub open spec fn filter_append_rel(pre: App, post: App, c: char) -> bool {
    &&& post.items == pre.items
    &&& post.sort_by == pre.sort_by
    &&& post.filtering == pre.filtering
    &&& post.show_help == pre.show_help
    &&& post.colors == pre.colors
    &&& (match (pre.filter, post.filter) {
        (Some(g), Some(f)) => f@ == g@.push(c),
        _ => false,
    })
    &&& post.filtered@ == filter_indices(pre.items@, query_of(post.filter))
    &&& post.selected == (if post.filtered@.len() == 0 {
        None::<usize>
    } else {
        Some(0usize)
    })
    &&& post.scroll_position == 0
}

/// Backspace drops the filter's last character (a no-op when it is empty)
/// and the filter is reapplied.
pub open spec fn filter_pop_rel(pre: App, post: App) -> bool {
    &&& post.items == pre.items
    &&& post.sort_by == pre.sort_by
    &&& post.filtering == pre.filtering
    &&& post.show_help == pre.show_help
    &&& post.colors == pre.colors
    &&& (match (pre.filter, post.filter) {
        (Some(g), Some(f)) => f@ == (if g@.len() == 0 {
            g@
        } else {
            g@.drop_last()
        }),
        _ => false,
    })
    &&& post.filtered@ == filter_indices(pre.items@, query_of(post.filter))
    &&& post.selected == (if post.filtered@.len() == 0 {
        None::<usize>
    } else {
        Some(0usize)
    })
    &&& post.scroll_position == 0
}

/// Enter commits the query: editing ends, the filter value and the view
/// stay.
pub open spec fn filter_commit_rel(pre: App, post: App) -> bool {
    &&& post.items == pre.items
    &&& post.sort_by == pre.sort_by
    &&& post.filtered == pre.filtered
    &&& post.filter == pre.filter
    &&& post.filtering == false
    &&& post.selected == pre.selected
    &&& post.scroll_position == pre.scroll_position
    &&& post.show_help == pre.show_help
    &&& post.colors == pre.colors
}

/// Esc cancels the filter: editing ends, the filter is removed, every entry
/// returns to the view.
pub open spec fn filter_cancel_rel(pre: App, post: App) -> bool {
    &&& post.items == pre.items
    &&& post.sort_by == pre.sort_by
    &&& post.filter is None
    &&& post.filtering == false
    &&& post.show_help == pre.show_help
    &&& post.colors == pre.colors
    &&& post.filtered@ == filter_indices(pre.items@, Seq::<char>::empty())
    &&& post.selected == (if post.filtered@.len() == 0 {
        None::<usize>
    } else {
        Some(0usize)
    })
    &&& post.scroll_position == 0
}

/// Slash begins filter-editing with an empty query; every entry matches it.
pub open spec fn enter_filter_rel(pre: App, post: App) -> bool {
    &&& post.items == pre.items
    &&& post.sort_by == pre.sort_by
    &&& post.filtering == true
    &&& (match post.filter {
        Some(f) => f@ == Seq::<char>::empty(),
        None => false,
    })
    &&& post.show_help == pre.show_help
    &&& post.colors == pre.colors
    &&& post.filtered@ == filter_indices(pre.items@, Seq::<char>::empty())
    &&& post.selected == (if post.filtered@.len() == 0 {
        None::<usize>
    } else {
        Some(0usize)
    })
    &&& post.scroll_position == 0
}

/// The question mark toggles the help overlay and nothing else.
pub open spec fn toggle_help_rel(pre: App, post: App) -> bool {
    &&& post.items == pre.items
    &&& post.sort_by == pre.sort_by
    &&& post.filtered == pre.filtered
    &&& post.filter == pre.filter
    &&& post.filtering == pre.filtering
    &&& post.selected == pre.selected
    &&& post.scroll_position == pre.scroll_position
    &&& post.show_help == !pre.show_help
    &&& post.colors == pre.colors
}

/// What one key does to the engine, by mode. While filter-editing: a
/// character is appended (`q` too -- it is a character here, not quit),
/// Backspace pops, Enter commits, Esc cancels, anything else is a no-op.
/// While browsing: j/Down and k/Up move, 1 to 5 pick a sort key and sort,
/// slash begins filter-editing, the question mark toggles help, and o, y, e
/// and q leave the view state alone.
pub open spec fn handle_key_rel(pre: App, post: App, key: Key) -> bool {
    if pre.filtering {
        match key {
            Key::Char(c) => filter_append_rel(pre, post, c),
            Key::Backspace => filter_pop_rel(pre, post),
            Key::Enter => filter_commit_rel(pre, post),
            Key::Esc => filter_cancel_rel(pre, post),
            _ => unchanged_rel(pre, post),
        }
    } else {
        match key {
            Key::Char(c) => if c == 'j' {
                next_row_rel(pre, post)
            } else if c == 'k' {
                prev_row_rel(pre, post)
            } else if c == '1' {
                sort_to_rel(pre, post, SortBy::Name)
            } else if c == '2' {
                sort_to_rel(pre, post, SortBy::Stars)
            } else if c == '3' {
                sort_to_rel(pre, post, SortBy::Forks)
            } else if c == '4' {
                sort_to_rel(pre, post, SortBy::Created)
            } else if c == '5' {
                sort_to_rel(pre, post, SortBy::Updated)
            } else if c == '/' {
                enter_filter_rel(pre, post)
            } else if c == '?' {
                toggle_help_rel(pre, post)
            } else {
                unchanged_rel(pre, post)
            },
            Key::Down => next_row_rel(pre, post),
            Key::Up => prev_row_rel(pre, post),
            _ => unchanged_rel(pre, post),
        }
    }
}

impl App {
    /// Applies one key to the engine and says whether the loop goes on,
    /// quits, or exports. Browser, clipboard and export side effects are
    /// best-effort; the view state they leave behind is pinned either way.
    pub fn handle_key(&mut self, key: Key) -> (r: KeyResponse)
        requires
            old(self).wf(),
        ensures
            final(self).wf(),
            handle_key_rel(*old(self), *final(self), key),
            r == key_response_spec(*old(self), key),
    {
        if self.filtering {
            match key {
                Key::Char(c) => {
                    match &mut self.filter {
                        Some(f) => push_char(f, c),
                        None => {
                            proof {
                                assert(false);
                            }
                        },
                    }
                    self.apply_filter();
                    KeyResponse::Continue
                },
                Key::Backspace => {
                    match &mut self.filter {
                        Some(f) => {
                            let _ = pop_char(f);
                        },
                        None => {
                            proof {
                                assert(false);
                            }
                        },
                    }
                    self.apply_filter();
                    KeyResponse::Continue
                },
                Key::Enter => {
                    self.filtering = false;
                    KeyResponse::Continue
                },
                Key::Esc => {
                    self.filtering = false;
                    self.filter = None;
                    self.apply_filter();
                    KeyResponse::Continue
                },
                _ => KeyResponse::Continue,
            }
        } else {
            match key {
                Key::Char(c) => {
                    if c == 'j' {
                        self.next_row();
                        KeyResponse::Continue
                    } else if c == 'k' {
                        self.previous_row();
                        KeyResponse::Continue
                    } else if c == 'q' {
                        KeyResponse::Quit
                    } else if c == 'e' {
                        KeyResponse::Export
                    } else if c == 'o' {
                        self.open_selected();
                        KeyResponse::Continue
                    } else if c == 'y' {
                        self.copy_selected();
                        KeyResponse::Continue
                    } else if c == '/' {
                        self.filtering = true;
                        self.filter = Some(String::new());
                        self.apply_filter();
                        KeyResponse::Continue
                    } else if c == '?' {
                        self.show_help = !self.show_help;
                        KeyResponse::Continue
                    } else if c == '1' {
                        self.sort_by = SortBy::Name;
                        self.sort();
                        KeyResponse::Continue
                    } else if c == '2' {
                        self.sort_by = SortBy::Stars;
                        self.sort();
                        KeyResponse::Continue
                    } else if c == '3' {
                        self.sort_by = SortBy::Forks;
                        self.sort();
                        KeyResponse::Continue
                    } else if c == '4' {
                        self.sort_by = SortBy::Created;
                        self.sort();
                        KeyResponse::Continue
                    } else if c == '5' {
                        self.sort_by = SortBy::Updated;
                        self.sort();
                        KeyResponse::Continue
                    } else {
                        KeyResponse::Continue
                    }
                },
                Key::Down => {
                    self.next_row();
                    KeyResponse::Continue
                },
                Key::Up => {
                    self.previous_row();
                    KeyResponse::Continue
                },
                Key::Esc => KeyResponse::Quit,
                _ => KeyResponse::Continue,
            }
        }
    }
}

} // verus!
