//! What the renderer puts on screen, as plain text and numbers: the column
//! labels, the footer, the help overlay, the loading message, the exported
//! markdown, and the row striping. The terminal layer only places these.

use vstd::prelude::*;
use vstd::string::StringExecFns;

use crate::filter::query_of;
use crate::stats::Repo;
use crate::strutil::{compact_spec, dec_digits, prettify_num, push_u64_dec};
use crate::ui::colors::Rgb;
use crate::ui::App;

verus! {

/// The two-line key hint shown while browsing.
pub open spec fn info_text_spec() -> Seq<char> {
    "Sort by: (1) Name | (2) Stars | (3) Forks | (4) Age | (5) Updated\n(O) Open | (Y) Copy | (?) Help"@
}

/// The fixed text of the help overlay.
pub open spec fn help_text_spec() -> Seq<char> {
    "  Keybindings\n  --------------------------\n  1-5    Sort by column\n  /      Filter repos\n  o      Open in browser\n  y      Yank URL to clipboard\n  j/Down Move down\n  k/Up   Move up\n  ?      Toggle this help\n  q/Esc  Quit"@
}

impl App {
    /// The footer's text: the filter line with a trailing caret while
    /// editing, the key hint otherwise.
    pub fn footer_text(&self) -> (r: String)
        requires
            self.filtering ==> self.filter is Some,
        ensures
            self.filtering ==> (match self.filter {
                Some(f) => r@ == "Filter: "@ + f@ + "_"@,
                None => false,
            }),
            !self.filtering ==> r@ == info_text_spec(),
    {
        if self.filtering {
            match &self.filter {
                Some(f) => {
                    let mut s = String::new();
                    s.append("Filter: ");
                    s.append(f.as_str());
                    s.append("_");
                    proof {
                        assert(s@ =~= "Filter: "@ + f@ + "_"@);
                    }
                    s
                },
                None => {
                    proof {
                        assert(false);
                    }
                    String::new()
                },
            }
        } else {
            String::from_str(
                "Sort by: (1) Name | (2) Stars | (3) Forks | (4) Age | (5) Updated\n(O) Open | (Y) Copy | (?) Help",
            )
        }
    }

    /// The help overlay's text.
    pub fn help_text() -> (r: String)
        ensures
            r@ == help_text_spec(),
    {
        String::from_str(
            "  Keybindings\n  --------------------------\n  1-5    Sort by column\n  /      Filter repos\n  o      Open in browser\n  y      Yank URL to clipboard\n  j/Down Move down\n  k/Up   Move up\n  ?      Toggle this help\n  q/Esc  Quit",
        )
    }

    /// The centered popup the help overlay occupies: the middle quarter of a
    /// screen of the given size.
    pub fn help_popup_rect(width: u16, height: u16) -> (r: (u16, u16, u16, u16))
        ensures
            r.0 == width / 4,
            r.1 == height / 4,
            r.2 == width / 2,
            r.3 == height / 2,
    {
        (width / 4, height / 4, width / 2, height / 2)
    }

    /// The background stripe of the row displayed at position `i`: even rows
    /// take the normal color, odd rows the alternate one.
    pub fn row_bg(&self, i: usize) -> (c: Rgb)
        ensures
            c == (if i % 2 == 0 {
                self.colors.normal_row_color
            } else {
                self.colors.alt_row_color
            }),
    {
        if i % 2 == 0 {
            self.colors.normal_row_color
        } else {
            self.colors.alt_row_color
        }
    }

    /// The table's column labels, left to right.
    pub fn header_labels() -> (r: Vec<String>)
        ensures
            r@.len() == 6,
            r@[0]@ == "Name"@,
            r@[1]@ == "Stars"@,
            r@[2]@ == "Forks"@,
            r@[3]@ == "License"@,
            r@[4]@ == "Age"@,
            r@[5]@ == "Updated"@,
    {
        let mut v: Vec<String> = Vec::new();
        v.push(String::from_str("Name"));
        v.push(String::from_str("Stars"));
        v.push(String::from_str("Forks"));
        v.push(String::from_str("License"));
        v.push(String::from_str("Age"));
        v.push(String::from_str("Updated"));
        v
    }

    /// The markdown text of the view as currently filtered and ordered: a
    /// header and one table row per displayed entry.
    pub fn export_markdown(&self) -> (r: String)
        requires
            self.wf(),
        ensures
            r@ == export_spec(self.items@, self.filtered@),
    {
        proof {
            crate::filter::lemma_filter_indices_in_range(
                self.items@,
                query_of(self.filter),
                self.items@.len() as int,
            );
        }
        let mut s = String::from_str("| Name | Stars | Forks | License |\n| --- | --- | --- | --- |\n");
        let mut k: usize = 0;
        proof {
            assert(s@ =~= export_header_spec() + export_rows_spec(self.items@, self.filtered@, 0));
        }
        while k < self.filtered.len()
            invariant
                self.wf(),
                k <= self.filtered@.len(),
                forall|j: int|
                    0 <= j < self.filtered@.len() ==> (#[trigger] self.filtered@[j])
                        < self.items@.len(),
                s@ == export_header_spec() + export_rows_spec(self.items@, self.filtered@, k as int),
            decreases self.filtered@.len() - k,
        {
            let idx = self.filtered[k];
            let ghost pre = s@;
            s.append("| ");
            s.append(self.items[idx].name.as_str());
            s.append(" | ");
            let stars = prettify_num(self.items[idx].stars);
            s.append(stars.as_str());
            s.append(" | ");
            let forks = prettify_num(self.items[idx].forks);
            s.append(forks.as_str());
            s.append(" | ");
            s.append(self.items[idx].license.as_str());
            s.append(" |\n");
            proof {
                assert(s@ =~= pre + export_row_spec(self.items@[self.filtered@[k as int] as int]));
                assert(s@ =~= export_header_spec() + export_rows_spec(
                    self.items@,
                    self.filtered@,
                    k + 1,
                ));
            }
            k = k + 1;
        }
        s
    }
}

/// The exported table's header.
pub open spec fn export_header_spec() -> Seq<char> {
    "| Name | Stars | Forks | License |\n| --- | --- | --- | --- |\n"@
}

/// One exported table row.
pub open spec fn export_row_spec(r: Repo) -> Seq<char> {
    "| "@ + r.name@ + " | "@ + compact_spec(r.stars) + " | "@ + compact_spec(r.forks) + " | "@
        + r.license@ + " |\n"@
}

/// The exported rows of the first `n` displayed entries, in display order.
pub open spec fn export_rows_spec(items: Seq<Repo>, filtered: Seq<usize>, n: int) -> Seq<char>
    decreases n,
{
    if n <= 0 {
        Seq::<char>::empty()
    } else {
        export_rows_spec(items, filtered, n - 1) + export_row_spec(items[filtered[n - 1] as int])
    }
}

/// The whole exported text.
pub open spec fn export_spec(items: Seq<Repo>, filtered: Seq<usize>) -> Seq<char> {
    export_header_spec() + export_rows_spec(items, filtered, filtered.len() as int)
}

/// The loading frame's message while the fetcher reports progress.
pub fn loading_message(current: usize, total: usize) -> (r: String)
    ensures
        r@ == "Fetching "@ + dec_digits(current as nat) + "/"@ + dec_digits(total as nat) + "..."@,
{
    let mut s = String::new();
    s.append("Fetching ");
    push_u64_dec(current as u64, &mut s);
    s.append("/");
    push_u64_dec(total as u64, &mut s);
    s.append("...");
    proof {
        assert(s@ =~= "Fetching "@ + dec_digits(current as nat) + "/"@ + dec_digits(total as nat)
            + "..."@);
    }
    s
}

} // verus!
