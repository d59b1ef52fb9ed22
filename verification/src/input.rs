//! The input resolver's verified parts: classifying the command-line
//! argument, and extracting `(owner, repo)` references from fetched text.
//! The text itself comes from a URL, a file or an editor buffer; reading it
//! is the outer program's business.

use vstd::prelude::*;

use crate::strutil::{starts_with, starts_with_spec};

verus! {

/// Where the repository list comes from: a URL to fetch, a file to read, or
/// an editor buffer to open.
#[derive(Debug, PartialEq, Eq)]
pub enum Input {
    Url(String),
    File(String),
    Editor,
}

/// Classifies the optional command-line argument: an `http://` or
/// `https://` argument is a URL, any other argument a file path, and no
/// argument at all asks for the editor.
pub fn detect_input(arg: Option<String>) -> (r: Input)
    ensures
        (match arg {
            None => r == Input::Editor,
            Some(s) => r == (if starts_with_spec(s@, "http://"@) || starts_with_spec(
                s@,
                "https://"@,
            ) {
                Input::Url(s)
            } else {
                Input::File(s)
            }),
        }),
{
    match arg {
        Some(s) => {
            if starts_with(s.as_str(), "http://") || starts_with(s.as_str(), "https://") {
                Input::Url(s)
            } else {
                Input::File(s)
            }
        },
        None => Input::Editor,
    }
}

/// The marker a repository reference starts with.
pub open spec fn gh_prefix() -> Seq<char> {
    seq![
        'h', 't', 't', 'p', 's', ':', '/', '/', 'g', 'i', 't', 'h', 'u', 'b', '.', 'c', 'o', 'm',
        '/',
    ]
}

/// The marker occurs in `s` at position `i`.
pub open spec fn prefix_at(s: Seq<char>, i: int) -> bool {
    &&& 0 <= i
    &&& i + gh_prefix().len() <= s.len()
    &&& s.subrange(i, i + gh_prefix().len()) == gh_prefix()
}

/// ASCII whitespace, which ends a repository name.
pub open spec fn is_space_char(c: char) -> bool {
    c == ' ' || c == '\t' || c == '\n' || c == '\r' || c == '\u{b}' || c == '\u{c}'
}

/// A character that ends a repository name: a path separator, a closing
/// parenthesis (references often sit inside markdown links), a fragment
/// marker, or whitespace.
pub open spec fn is_name_stop(c: char) -> bool {
    c == '/' || c == ')' || c == '#' || is_space_char(c)
}

/// The end of the owner segment: the first position at or after `j` that
/// holds a separator, or the end of the text.
pub open spec fn owner_run_end(s: Seq<char>, j: int) -> int
    decreases s.len() - j,
{
    if j < 0 || j >= s.len() || s[j] == '/' {
        j
    } else {
        owner_run_end(s, j + 1)
    }
}

/// The end of the name segment: the first position at or after `j` that
/// holds a stop character, or the end of the text.
pub open spec fn name_run_end(s: Seq<char>, j: int) -> int
    decreases s.len() - j,
{
    if j < 0 || j >= s.len() || is_name_stop(s[j]) {
        j
    } else {
        name_run_end(s, j + 1)
    }
}

pub proof fn lemma_owner_run_end_bounds(s: Seq<char>, j: int)
    requires
        0 <= j <= s.len(),
    ensures
        j <= owner_run_end(s, j) <= s.len(),
    decreases s.len() - j,
{
    if !(j >= s.len() || s[j] == '/') {
        lemma_owner_run_end_bounds(s, j + 1);
    }
}

pub proof fn lemma_name_run_end_bounds(s: Seq<char>, j: int)
    requires
        0 <= j <= s.len(),
    ensures
        j <= name_run_end(s, j) <= s.len(),
    decreases s.len() - j,
{
    if !(j >= s.len() || is_name_stop(s[j])) {
        lemma_name_run_end_bounds(s, j + 1);
    }
}

/// The references found from position `i` on, scanning left to right: at
/// each occurrence of the marker, a non-empty run up to a `/` is the owner
/// and a non-empty run up to a stop character is the name; matches do not
/// overlap, and a failed attempt moves on by one character.
pub open spec fn scan_repos(s: Seq<char>, i: int) -> Seq<(Seq<char>, Seq<char>)>
    decreases s.len() - i,
    when 0 <= i
    via scan_repos_dec
{
    if i >= s.len() {
        Seq::<(Seq<char>, Seq<char>)>::empty()
    } else if prefix_at(s, i) {
        let j = i + gh_prefix().len();
        let o = owner_run_end(s, j);
        if o > j && o < s.len() {
            let e = name_run_end(s, o + 1);
            if e > o + 1 {
                seq![(s.subrange(j, o), s.subrange(o + 1, e))] + scan_repos(s, e)
            } else {
                scan_repos(s, i + 1)
            }
        } else {
            scan_repos(s, i + 1)
        }
    } else {
        scan_repos(s, i + 1)
    }
}

#[via_fn]
proof fn scan_repos_dec(s: Seq<char>, i: int) {
    if 0 <= i < s.len() && prefix_at(s, i) {
        let j = i + gh_prefix().len();
        lemma_owner_run_end_bounds(s, j);
        let o = owner_run_end(s, j);
        if o > j && o < s.len() {
            lemma_name_run_end_bounds(s, o + 1);
        }
    }
}

pub proof fn lemma_owner_run_chars(s: Seq<char>, j: int)
    requires
        0 <= j <= s.len(),
    ensures
        forall|t: int| j <= t < owner_run_end(s, j) ==> s[t] != '/',
    decreases s.len() - j,
{
    if !(j >= s.len() || s[j] == '/') {
        lemma_owner_run_chars(s, j + 1);
    }
}

pub proof fn lemma_name_run_chars(s: Seq<char>, j: int)
    requires
        0 <= j <= s.len(),
    ensures
        forall|t: int| j <= t < name_run_end(s, j) ==> !is_name_stop(s[t]),
    decreases s.len() - j,
{
    if !(j >= s.len() || is_name_stop(s[j])) {
        lemma_name_run_chars(s, j + 1);
    }
}

/// A well-shaped reference: a non-empty owner without separators and a
/// non-empty name without stop characters.
pub open spec fn valid_reference(p: (Seq<char>, Seq<char>)) -> bool {
    &&& p.0.len() >= 1
    &&& p.1.len() >= 1
    &&& (forall|t: int| 0 <= t < p.0.len() ==> p.0[t] != '/')
    &&& (forall|t: int| 0 <= t < p.1.len() ==> !is_name_stop(p.1[t]))
}

/// Every reference the scan extracts is well-shaped.
pub proof fn lemma_scan_repos_wellformed(s: Seq<char>, i: int)
    requires
        0 <= i,
    ensures
        forall|k: int|
            0 <= k < scan_repos(s, i).len() ==> valid_reference(#[trigger] scan_repos(s, i)[k]),
    decreases s.len() - i,
{
    if i >= s.len() {
    } else if prefix_at(s, i) {
        let j = i + gh_prefix().len();
        lemma_owner_run_end_bounds(s, j);
        let o = owner_run_end(s, j);
        if o > j && o < s.len() {
            lemma_name_run_end_bounds(s, o + 1);
            let e = name_run_end(s, o + 1);
            if e > o + 1 {
                lemma_scan_repos_wellformed(s, e);
                lemma_owner_run_chars(s, j);
                lemma_name_run_chars(s, o + 1);
                let head = (s.subrange(j, o), s.subrange(o + 1, e));
                assert(valid_reference(head));
                assert forall|k: int|
                    0 <= k < scan_repos(s, i).len() implies valid_reference(
                    #[trigger] scan_repos(s, i)[k],
                ) by {
                    if k > 0 {
                        assert(scan_repos(s, i)[k] == scan_repos(s, e)[k - 1]);
                    } else {
                        assert(scan_repos(s, i)[0] == head);
                    }
                }
            } else {
                lemma_scan_repos_wellformed(s, i + 1);
                assert forall|k: int|
                    0 <= k < scan_repos(s, i).len() implies valid_reference(
                    #[trigger] scan_repos(s, i)[k],
                ) by {
                    assert(scan_repos(s, i)[k] == scan_repos(s, i + 1)[k]);
                }
            }
        } else {
            lemma_scan_repos_wellformed(s, i + 1);
            assert forall|k: int|
                0 <= k < scan_repos(s, i).len() implies valid_reference(
                #[trigger] scan_repos(s, i)[k],
            ) by {
                assert(scan_repos(s, i)[k] == scan_repos(s, i + 1)[k]);
            }
        }
    } else {
        lemma_scan_repos_wellformed(s, i + 1);
        assert forall|k: int|
            0 <= k < scan_repos(s, i).len() implies valid_reference(
            #[trigger] scan_repos(s, i)[k],
        ) by {
            assert(scan_repos(s, i)[k] == scan_repos(s, i + 1)[k]);
        }
    }
}

/// The views of a listing of owner/name pairs.
pub open spec fn pairs_view(r: Seq<(String, String)>) -> Seq<(Seq<char>, Seq<char>)> {
    r.map_values(|p: (String, String)| (p.0@, p.1@))
}

/// Whether the marker occurs at position `i` of the text.
fn marker_at(content: &Vec<char>, i: usize, marker: &Vec<char>) -> (r: bool)
    requires
        marker@ == gh_prefix(),
    ensures
        r == prefix_at(content@, i as int),
{
    if i > content.len() || content.len() - i < marker.len() {
        return false;
    }
    let mut k: usize = 0;
    while k < marker.len()
        invariant
            k <= marker@.len(),
            i + marker@.len() <= content@.len() <= usize::MAX,
            marker@ == gh_prefix(),
            forall|t: int| 0 <= t < k ==> content@[i + t] == marker@[t],
        decreases marker@.len() - k,
    {
        if content[i + k] != marker[k] {
            assert(content@.subrange(i as int, i + gh_prefix().len())[k as int] != gh_prefix()[
                k as int
            ]);
            return false;
        }
        k = k + 1;
    }
    proof {
        assert(content@.subrange(i as int, i + gh_prefix().len()) =~= gh_prefix());
    }
    true
}

/// The end of the owner run that starts at `j`.
fn owner_end(content: &Vec<char>, j: usize) -> (r: usize)
    requires
        j <= content@.len(),
    ensures
        r == owner_run_end(content@, j as int),
        j <= r <= content@.len(),
{
    proof {
        lemma_owner_run_end_bounds(content@, j as int);
    }
    let mut k: usize = j;
    while k < content.len() && content[k] != '/'
        invariant
            j <= k <= content@.len(),
            owner_run_end(content@, j as int) == owner_run_end(content@, k as int),
        decreases content@.len() - k,
    {
        k = k + 1;
    }
    k
}

/// The end of the name run that starts at `j`.
fn name_end(content: &Vec<char>, j: usize) -> (r: usize)
    requires
        j <= content@.len(),
    ensures
        r == name_run_end(content@, j as int),
        j <= r <= content@.len(),
{
    proof {
        lemma_name_run_end_bounds(content@, j as int);
    }
    let mut k: usize = j;
    while k < content.len() && !is_name_stop_exec(content[k])
        invariant
            j <= k <= content@.len(),
            name_run_end(content@, j as int) == name_run_end(content@, k as int),
        decreases content@.len() - k,
    {
        k = k + 1;
    }
    k
}

fn is_name_stop_exec(c: char) -> (r: bool)
    ensures
        r == is_name_stop(c),
{
    c == '/' || c == ')' || c == '#' || c == ' ' || c == '\t' || c == '\n' || c == '\r' || c
        == '\u{b}' || c == '\u{c}'
}

/// A string of the characters `content[from..to]`.
fn chars_to_string(content: &Vec<char>, from: usize, to: usize) -> (r: String)
    requires
        from <= to <= content@.len(),
    ensures
        r@ == content@.subrange(from as int, to as int),
{
    let mut s = String::new();
    let mut k: usize = from;
    proof {
        assert(s@ =~= content@.subrange(from as int, from as int));
    }
    while k < to
        invariant
            from <= k <= to <= content@.len(),
            s@ == content@.subrange(from as int, k as int),
        decreases to - k,
    {
        crate::strutil::push_char(&mut s, content[k]);
        proof {
            assert(content@.subrange(from as int, k + 1) =~= content@.subrange(
                from as int,
                k as int,
            ).push(content@[k as int]));
        }
        k = k + 1;
    }
    s
}

/// The marker's characters.
fn make_marker() -> (r: Vec<char>)
    ensures
        r@ == gh_prefix(),
{
    let mut p: Vec<char> = Vec::new();
    p.push('h');
    p.push('t');
    p.push('t');
    p.push('p');
    p.push('s');
    p.push(':');
    p.push('/');
    p.push('/');
    p.push('g');
    p.push('i');
    p.push('t');
    p.push('h');
    p.push('u');
    p.push('b');
    p.push('.');
    p.push('c');
    p.push('o');
    p.push('m');
    p.push('/');
    proof {
        assert(p@ =~= gh_prefix());
    }
    p
}

/// Extracts every `(owner, repo)` reference from the text, left to right,
/// as `scan_repos` says.
pub fn parse_repos(content: &Vec<char>) -> (r: Vec<(String, String)>)
    ensures
        pairs_view(r@) == scan_repos(content@, 0),
{
    let marker = make_marker();
    let n = content.len();
    let mut r: Vec<(String, String)> = Vec::new();
    let mut i: usize = 0;
    proof {
        assert(pairs_view(r@) + scan_repos(content@, 0) =~= scan_repos(content@, 0));
    }
    while i < n
        invariant
            0 <= i <= n,
            n == content@.len(),
            marker@ == gh_prefix(),
            pairs_view(r@) + scan_repos(content@, i as int) == scan_repos(content@, 0),
        decreases n - i,
    {
        let ghost pre_pairs = pairs_view(r@);
        if marker_at(content, i, &marker) {
            let j = i + marker.len();
            let o = owner_end(content, j);
            if o > j && o < n {
                let e = name_end(content, o + 1);
                if e > o + 1 {
                    let owner = chars_to_string(content, j, o);
                    let name = chars_to_string(content, o + 1, e);
                    r.push((owner, name));
                    proof {
                        assert(pairs_view(r@) =~= pre_pairs + seq![
                            (
                                content@.subrange(j as int, o as int),
                                content@.subrange(o + 1, e as int),
                            ),
                        ]);
                        assert(pairs_view(r@) + scan_repos(content@, e as int) =~= scan_repos(
                            content@,
                            0,
                        ));
                    }
                    i = e;
                } else {
                    i = i + 1;
                }
            } else {
                i = i + 1;
            }
        } else {
            i = i + 1;
        }
    }
    proof {
        assert(pairs_view(r@) =~= scan_repos(content@, 0));
    }
    r
}

} // verus!
