//! The record model: one repository entry as the metadata fetcher returns
//! it, the ordered collection of entries, and the display formatting of
//! counts and instants.

use vstd::prelude::*;
use vstd::string::StringExecFns;

use crate::strutil::{compact_spec, prettify_num};

verus! {

/// One repository entry. Instants are UTC timestamps in whole seconds.
pub struct Repo {
    pub owner: String,
    pub name: String,
    pub stars: u32,
    pub forks: u32,
    pub created_at: i64,
    pub pushed_at: i64,
    pub license: String,
    pub description: Option<String>,
    pub topics: Vec<String>,
    pub homepage: Option<String>,
}

/// The fetched repository set, in the fetcher's output order.
pub struct Stats {
    pub repos: Vec<Repo>,
}

/// Relies on chrono::DateTime::from_timestamp and
/// chrono_humanize::HumanTime: renders the instant as an English relative
/// phrase. The text depends on the clock, so nothing is promised of it.
#[verifier::external_body]
fn humanize_secs(secs: i64) -> String {
    match chrono::DateTime::from_timestamp(secs, 0) {
        Some(dt) => chrono_humanize::HumanTime::from(dt).to_string(),
        None => String::new(),
    }
}

impl Repo {
    /// The six table cells of this entry: name, stars, forks, license, age,
    /// last update. The last two render the instants relative to the current
    /// time, so only their presence is promised.
    pub fn ref_array(&self) -> (r: Vec<String>)
        ensures
            r@.len() == 6,
            r@[0]@ == self.name@,
            r@[1]@ == compact_spec(self.stars),
            r@[2]@ == compact_spec(self.forks),
            r@[3]@ == self.license@,
    {
        let mut cells: Vec<String> = Vec::new();
        cells.push(self.name.clone());
        cells.push(prettify_num(self.stars));
        cells.push(prettify_num(self.forks));
        cells.push(self.license.clone());
        cells.push(humanize_secs(self.created_at));
        cells.push(humanize_secs(self.pushed_at));
        cells
    }

    /// Builds an entry from the plain values of one fetched record: missing
    /// counts become zero and a missing license key becomes the literal
    /// "None", as the fetcher's records are read.
    pub fn from_fetched(
        owner: String,
        name: String,
        stars: Option<u32>,
        forks: Option<u32>,
        license_key: Option<String>,
        created_at: i64,
        pushed_at: i64,
        description: Option<String>,
        topics: Vec<String>,
        homepage: Option<String>,
    ) -> (r: Repo)
        ensures
            r.owner == owner,
            r.name == name,
            r.stars == (match stars {
                Some(s) => s,
                None => 0u32,
            }),
            r.forks == (match forks {
                Some(f) => f,
                None => 0u32,
            }),
            r.license@ == (match license_key {
                Some(k) => k@,
                None => "None"@,
            }),
            r.created_at == created_at,
            r.pushed_at == pushed_at,
            r.description == description,
            r.topics == topics,
            r.homepage == homepage,
    {
        let license = match license_key {
            Some(k) => k,
            None => {
                let mut s = String::new();
                s.append("None");
                assert(s@ =~= "None"@);
                s
            },
        };
        Repo {
            owner,
            name,
            stars: match stars {
                Some(s) => s,
                None => 0,
            },
            forks: match forks {
                Some(f) => f,
                None => 0,
            },
            created_at,
            pushed_at,
            license,
            description,
            topics,
            homepage,
        }
    }
}

impl Stats {
    /// Whether a fetched entry with this star count is retained under the
    /// optional minimum-stars threshold.
    pub fn keep_repo(min_stars: Option<u32>, stars: u32) -> (r: bool)
        ensures
            r == (match min_stars {
                Some(min) => stars >= min,
                None => true,
            }),
    {
        match min_stars {
            Some(min) => stars >= min,
            None => true,
        }
    }
}

} // verus!
