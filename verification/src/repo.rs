//! A tiny demonstration record set: made-up names, ordered the way the
//! table orders its entries.

use vstd::prelude::*;

use crate::strutil::{chars_lt, lemma_chars_lt_asym, lemma_chars_lt_neg_trans, str_lt};

verus! {

/// One demonstration record: a made-up full name, and a made-up contact in
/// the stars column.
pub struct Repo {
    pub name: String,
    pub stars: String,
}

impl Repo {
    /// The record's two display cells.
    pub fn ref_array(&self) -> (r: Vec<String>)
        ensures
            r@.len() == 2,
            r@[0] == self.name,
            r@[1] == self.stars,
    {
        let mut v: Vec<String> = Vec::new();
        v.push(self.name.clone());
        v.push(self.stars.clone());
        v
    }

    pub fn name(&self) -> (r: &str)
        ensures
            r@ == self.name@,
    {
        self.name.as_str()
    }

    pub fn stars(&self) -> (r: &str)
        ensures
            r@ == self.stars@,
    {
        self.stars.as_str()
    }
}

/// Relies on fakeit::name::full: a made-up person name; nothing is promised
/// of the value.
#[verifier::external_body]
fn fake_full_name() -> String {
    fakeit::name::full()
}

/// Relies on fakeit::contact::email: a made-up address; nothing is promised
/// of the value.
#[verifier::external_body]
fn fake_email() -> String {
    fakeit::contact::email()
}

/// The records stand in name order.
pub open spec fn fake_sorted(s: Seq<Repo>) -> bool {
    forall|i: int, j: int| 0 <= i < j < s.len() ==> !chars_lt(#[trigger] s[j].name@, #[trigger] s[i].name@)
}

/// Orders two records by name, keeping the first on a tie.
fn order2(x: Repo, y: Repo) -> (p: (Repo, Repo))
    ensures
        !chars_lt(p.1.name@, p.0.name@),
        (p.0 == x && p.1 == y) || (p.0 == y && p.1 == x),
{
    if str_lt(y.name.as_str(), x.name.as_str()) {
        proof {
            lemma_chars_lt_asym(y.name@, x.name@);
        }
        (y, x)
    } else {
        (x, y)
    }
}

/// Three made-up records, in name order.
pub fn generate_fake_names() -> (r: Vec<Repo>)
    ensures
        r@.len() == 3,
        fake_sorted(r@),
{
    let r1 = Repo { name: fake_full_name(), stars: fake_email() };
    let r2 = Repo { name: fake_full_name(), stars: fake_email() };
    let r3 = Repo { name: fake_full_name(), stars: fake_email() };
    let (a, b) = order2(r1, r2);
    let (b2, c) = order2(b, r3);
    let (a2, b3) = order2(a, b2);
    proof {
        // the last record may stand after the first of the opening pair
        if b2 == b {
            lemma_chars_lt_neg_trans(c.name@, b2.name@, a.name@);
        }
        assert(!chars_lt(c.name@, a.name@));
    }
    let mut out: Vec<Repo> = Vec::new();
    out.push(a2);
    out.push(b3);
    out.push(c);
    proof {
        assert(out@[0] == a2 && out@[1] == b3 && out@[2] == c);
        assert(!chars_lt(out@[1].name@, out@[0].name@));
        assert(!chars_lt(out@[2].name@, out@[1].name@));
        assert(!chars_lt(out@[2].name@, out@[0].name@));
    }
    out
}

} // verus!
