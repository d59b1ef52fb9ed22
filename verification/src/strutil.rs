//! Character-sequence utilities shared by the table engine: decimal
//! rendering, lexicographic comparison, prefix and substring predicates,
//! and case folding.

use vstd::prelude::*;
use vstd::string::StrSliceExecFns;

verus! {

/// The character for a single decimal digit `d` (`0 <= d <= 9`).
pub open spec fn digit_char(d: nat) -> char {
    if d == 0 {
        '0'
    } else if d == 1 {
        '1'
    } else if d == 2 {
        '2'
    } else if d == 3 {
        '3'
    } else if d == 4 {
        '4'
    } else if d == 5 {
        '5'
    } else if d == 6 {
        '6'
    } else if d == 7 {
        '7'
    } else if d == 8 {
        '8'
    } else {
        '9'
    }
}

/// Decimal digits of `n`, most significant first, no leading zeros.
pub open spec fn dec_digits(n: nat) -> Seq<char>
    decreases n,
{
    if n < 10 {
        seq![digit_char(n)]
    } else {
        dec_digits(n / 10).push(digit_char(n % 10))
    }
}

fn digit_to_char(d: u64) -> (c: char)
    requires
        d < 10,
    ensures
        c == digit_char(d as nat),
{
    if d == 0 {
        '0'
    } else if d == 1 {
        '1'
    } else if d == 2 {
        '2'
    } else if d == 3 {
        '3'
    } else if d == 4 {
        '4'
    } else if d == 5 {
        '5'
    } else if d == 6 {
        '6'
    } else if d == 7 {
        '7'
    } else if d == 8 {
        '8'
    } else {
        '9'
    }
}

/// Relies on String::push: appends the given character to the end of the string.
#[verifier::external_body]
pub fn push_char(s: &mut String, c: char)
    ensures
        final(s)@ == old(s)@.push(c),
{
    s.push(c);
}

/// Relies on String::pop: removes and returns the last character, or None
/// when the string is empty.
#[verifier::external_body]
pub fn pop_char(s: &mut String) -> (r: Option<char>)
    ensures
        old(s)@.len() == 0 ==> r is None && final(s)@ == old(s)@,
        old(s)@.len() > 0 ==> r == Some(old(s)@.last()) && final(s)@ == old(s)@.drop_last(),
{
    s.pop()
}

/// Appends the decimal digits of `n` to `out`.
pub fn push_u64_dec(n: u64, out: &mut String)
    ensures
        final(out)@ == old(out)@ + dec_digits(n as nat),
    decreases n,
{
    if n < 10 {
        push_char(out, digit_to_char(n));
        assert(final(out)@ =~= old(out)@ + dec_digits(n as nat));
    } else {
        push_u64_dec(n / 10, out);
        push_char(out, digit_to_char(n % 10));
        assert(final(out)@ =~= old(out)@ + dec_digits(n as nat));
    }
}

/// The decimal rendering of `n`.
pub fn u64_dec(n: u64) -> (r: String)
    ensures
        r@ == dec_digits(n as nat),
{
    let mut s = String::new();
    push_u64_dec(n, &mut s);
    assert(s@ =~= dec_digits(n as nat));
    s
}

/// A count scaled to tenths, rendered as `whole.tenth`.
pub open spec fn tenths_digits(t: nat) -> Seq<char> {
    dec_digits(t / 10) + seq!['.'] + seq![digit_char(t % 10)]
}

/// The compact rendering of a count: at a million and above, millions to
/// one decimal place with suffix `M`; at a thousand and above, thousands to
/// one decimal place with suffix `k`; below that, the plain decimal.
/// Scaling rounds to the nearest tenth, ties upward.
pub open spec fn compact_spec(n: u32) -> Seq<char> {
    if n >= 1_000_000 {
        tenths_digits((((n + 50_000) / 100_000) as nat)) + seq!['M']
    } else if n >= 1_000 {
        tenths_digits((((n + 50) / 100) as nat)) + seq!['k']
    } else {
        dec_digits(n as nat)
    }
}

/// Renders a count compactly, as `compact_spec` says.
pub fn prettify_num(n: u32) -> (r: String)
    ensures
        r@ == compact_spec(n),
{
    if n >= 1_000_000 {
        let t: u64 = ((n as u64) + 50_000) / 100_000;
        let mut s = u64_dec(t / 10);
        push_char(&mut s, '.');
        push_char(&mut s, digit_to_char(t % 10));
        push_char(&mut s, 'M');
        assert(s@ =~= compact_spec(n));
        s
    } else if n >= 1_000 {
        let t: u64 = ((n as u64) + 50) / 100;
        let mut s = u64_dec(t / 10);
        push_char(&mut s, '.');
        push_char(&mut s, digit_to_char(t % 10));
        push_char(&mut s, 'k');
        assert(s@ =~= compact_spec(n));
        s
    } else {
        u64_dec(n as u64)
    }
}

/// A decimal digit character.
pub open spec fn is_digit_char(c: char) -> bool {
    '0' <= c <= '9'
}

/// A decimal rendering is never empty and holds digit characters alone.
pub proof fn lemma_dec_digits_are_digits(n: nat)
    ensures
        dec_digits(n).len() >= 1,
        forall|i: int| 0 <= i < dec_digits(n).len() ==> is_digit_char(#[trigger] dec_digits(n)[i]),
    decreases n,
{
    if n >= 10 {
        lemma_dec_digits_are_digits(n / 10);
    }
}

/// The rendered magnitude bands never mix: a count of a million or more
/// ends in `M`, one of a thousand or more in `k`, and a smaller one is its
/// plain digits, which end in neither.
pub proof fn lemma_compact_bands(n: u32)
    ensures
        n >= 1_000_000 ==> compact_spec(n).last() == 'M',
        1_000 <= n < 1_000_000 ==> compact_spec(n).last() == 'k',
        n < 1_000 ==> compact_spec(n) == dec_digits(n as nat) && is_digit_char(
            compact_spec(n).last(),
        ) && !is_digit_char('M') && !is_digit_char('k'),
{
    if n >= 1_000_000 {
        assert(compact_spec(n).last() == 'M');
    } else if n >= 1_000 {
        assert(compact_spec(n).last() == 'k');
    } else {
        lemma_dec_digits_are_digits(n as nat);
        assert(is_digit_char(dec_digits(n as nat)[dec_digits(n as nat).len() - 1]));
    }
}

/// Strict lexicographic order on character sequences, by scalar value;
/// a proper prefix comes before its extensions. This is the order in
/// which Rust compares strings.
pub open spec fn chars_lt(a: Seq<char>, b: Seq<char>) -> bool
    decreases a.len(),
{
    if b.len() == 0 {
        false
    } else if a.len() == 0 {
        true
    } else if a[0] != b[0] {
        a[0] < b[0]
    } else {
        chars_lt(a.drop_first(), b.drop_first())
    }
}

pub proof fn lemma_chars_lt_trichotomy(a: Seq<char>, b: Seq<char>)
    ensures
        chars_lt(a, b) || chars_lt(b, a) || a == b,
    decreases a.len(),
{
    if b.len() == 0 && a.len() == 0 {
        assert(a =~= b);
    } else if b.len() == 0 {
        assert(chars_lt(b, a));
    } else if a.len() == 0 {
        assert(chars_lt(a, b));
    } else if a[0] != b[0] {
        assert(a[0] < b[0] || b[0] < a[0]);
    } else {
        lemma_chars_lt_trichotomy(a.drop_first(), b.drop_first());
        if !chars_lt(a, b) && !chars_lt(b, a) {
            assert(!chars_lt(a.drop_first(), b.drop_first()));
            assert(!chars_lt(b.drop_first(), a.drop_first()));
            assert(a.drop_first() == b.drop_first());
            assert(a =~= seq![a[0]] + a.drop_first());
            assert(b =~= seq![b[0]] + b.drop_first());
            assert(seq![a[0]] + a.drop_first() == seq![b[0]] + b.drop_first());
        }
    }
}

pub proof fn lemma_chars_lt_asym(a: Seq<char>, b: Seq<char>)
    ensures
        chars_lt(a, b) ==> !chars_lt(b, a),
    decreases a.len(),
{
    if a.len() > 0 && b.len() > 0 && a[0] == b[0] {
        lemma_chars_lt_asym(a.drop_first(), b.drop_first());
    }
}

pub proof fn lemma_chars_lt_trans(a: Seq<char>, b: Seq<char>, c: Seq<char>)
    requires
        chars_lt(a, b),
        chars_lt(b, c),
    ensures
        chars_lt(a, c),
    decreases a.len(),
{
    if a.len() > 0 && b.len() > 0 && c.len() > 0 && a[0] == b[0] && b[0] == c[0] {
        lemma_chars_lt_trans(a.drop_first(), b.drop_first(), c.drop_first());
    }
}

/// Negative transitivity: together with asymmetry and transitivity this
/// makes `chars_lt` a strict weak order.
pub proof fn lemma_chars_lt_neg_trans(a: Seq<char>, b: Seq<char>, c: Seq<char>)
    requires
        !chars_lt(a, b),
        !chars_lt(b, c),
    ensures
        !chars_lt(a, c),
{
    if chars_lt(a, c) {
        lemma_chars_lt_trichotomy(a, b);
        lemma_chars_lt_trichotomy(b, c);
        if chars_lt(b, a) && chars_lt(c, b) {
            lemma_chars_lt_trans(c, b, a);
            lemma_chars_lt_asym(a, c);
        } else if chars_lt(b, a) && b == c {
            lemma_chars_lt_asym(a, c);
        } else if a == b && chars_lt(c, b) {
            lemma_chars_lt_asym(a, c);
        }
    }
}

/// Compares two strings in the lexicographic order `chars_lt`.
pub fn str_lt(a: &str, b: &str) -> (r: bool)
    ensures
        r == chars_lt(a@, b@),
{
    let alen = a.unicode_len();
    let blen = b.unicode_len();
    let mut i: usize = 0;
    proof {
        assert(a@.skip(0) =~= a@);
        assert(b@.skip(0) =~= b@);
    }
    while i < alen && i < blen
        invariant
            i <= alen,
            i <= blen,
            alen == a@.len(),
            blen == b@.len(),
            chars_lt(a@, b@) == chars_lt(a@.skip(i as int), b@.skip(i as int)),
        decreases alen - i,
    {
        let ca = a.get_char(i);
        let cb = b.get_char(i);
        if ca == cb {
            proof {
                assert(a@.skip(i as int).drop_first() =~= a@.skip(i + 1));
                assert(b@.skip(i as int).drop_first() =~= b@.skip(i + 1));
            }
            i = i + 1;
        } else {
            return ca < cb;
        }
    }
    if alen < blen {
        assert(a@.skip(i as int).len() == 0);
        assert(b@.skip(i as int).len() > 0);
        true
    } else {
        assert(b@.skip(i as int).len() == 0);
        false
    }
}

/// `p` is a prefix of `s`.
pub open spec fn starts_with_spec(s: Seq<char>, p: Seq<char>) -> bool {
    p.len() <= s.len() && s.take(p.len() as int) == p
}

/// Whether `s` starts with the prefix `p`.
pub fn starts_with(s: &str, p: &str) -> (r: bool)
    ensures
        r == starts_with_spec(s@, p@),
{
    let slen = s.unicode_len();
    let plen = p.unicode_len();
    if plen > slen {
        return false;
    }
    let mut i: usize = 0;
    while i < plen
        invariant
            i <= plen <= slen,
            slen == s@.len(),
            plen == p@.len(),
            forall|j: int| 0 <= j < i ==> s@[j] == p@[j],
        decreases plen - i,
    {
        if s.get_char(i) != p.get_char(i) {
            assert(s@.take(plen as int)[i as int] != p@[i as int]);
            return false;
        }
        i = i + 1;
    }
    assert(s@.take(plen as int) =~= p@);
    true
}

/// `n` occurs in `h` as a contiguous substring.
pub open spec fn contains_seq(h: Seq<char>, n: Seq<char>) -> bool {
    exists|i: int| 0 <= i && i + n.len() <= h.len() && #[trigger] h.subrange(i, i + n.len()) == n
}

/// An empty needle occurs in every haystack.
pub proof fn lemma_contains_empty(h: Seq<char>)
    ensures
        contains_seq(h, Seq::<char>::empty()),
{
    let n = Seq::<char>::empty();
    assert(h.subrange(0, 0 + n.len() as int) =~= n);
}

/// Relies on str::contains: true exactly when the needle occurs as a
/// contiguous substring of the haystack.
#[verifier::external_body]
pub fn str_contains(h: &str, n: &str) -> (r: bool)
    ensures
        r == contains_seq(h@, n@),
{
    h.contains(n)
}

/// What str::to_lowercase returns: a function of the characters alone.
pub uninterp spec fn lower_of(s: Seq<char>) -> Seq<char>;

/// Relies on str::to_lowercase: the lowercased text depends on the
/// characters alone, and an empty string stays empty.
#[verifier::external_body]
pub fn lowercase(s: &str) -> (r: String)
    ensures
        r@ == lower_of(s@),
        s@.len() == 0 ==> r@.len() == 0,
{
    s.to_lowercase()
}

} // verus!
