//! The closed set of source-retrieval strategies that a generated
//! expression can reference.

use vstd::prelude::*;

use crate::casing::lower;
use crate::casing::matches_token;

verus! {

/// A source-retrieval strategy. The set is closed: a user-supplied name
/// either matches one of these variants case-insensitively or is rejected.
#[derive(Clone, Copy, Debug, PartialEq, Eq, Structural)]
pub enum Fetcher {
    /// Fetch a release archive from a GitHub repository.
    Github,
    /// Fetch a release archive from a GitLab repository.
    Gitlab,
    /// Fetch a source distribution from the Python package index.
    Pypi,
}

/// The lowercase name token of each variant. Tokens are unique, which keeps
/// case-insensitive lookup unambiguous.
pub open spec fn spec_fetcher_name(f: Fetcher) -> Seq<char> {
    match f {
        Fetcher::Github => "github"@,
        Fetcher::Gitlab => "gitlab"@,
        Fetcher::Pypi => "pypi"@,
    }
}

/// Case-insensitive lookup from a raw user string to a variant: the string's
/// lowercase image must equal a variant's whole name token, no prefix
/// matching.
pub open spec fn spec_fetcher_from_name(s: Seq<char>) -> Option<Fetcher> {
    if lower(s) == spec_fetcher_name(Fetcher::Github) {
        Some(Fetcher::Github)
    } else if lower(s) == spec_fetcher_name(Fetcher::Gitlab) {
        Some(Fetcher::Gitlab)
    } else if lower(s) == spec_fetcher_name(Fetcher::Pypi) {
        Some(Fetcher::Pypi)
    } else {
        None
    }
}

impl Fetcher {
    /// The variant's lowercase name token, as rendered into expressions and
    /// help text.
    pub fn name(&self) -> (r: &'static str)
        ensures
            r@ == spec_fetcher_name(*self),
    {
        match self {
            Fetcher::Github => "github",
            Fetcher::Gitlab => "gitlab",
            Fetcher::Pypi => "pypi",
        }
    }

    /// Looks a raw user string up case-insensitively among the variants.
    pub fn from_name(s: &str) -> (r: Option<Fetcher>)
        ensures
            r == spec_fetcher_from_name(s@),
    {
        if matches_token(s, "github") {
            Some(Fetcher::Github)
        } else if matches_token(s, "gitlab") {
            Some(Fetcher::Gitlab)
        } else if matches_token(s, "pypi") {
            Some(Fetcher::Pypi)
        } else {
            None
        }
    }

    /// The closed list of valid name tokens, for input validation and help
    /// text.
    pub fn variants() -> (v: Vec<&'static str>)
        ensures
            v@.len() == 3,
            v@[0]@ == spec_fetcher_name(Fetcher::Github),
            v@[1]@ == spec_fetcher_name(Fetcher::Gitlab),
            v@[2]@ == spec_fetcher_name(Fetcher::Pypi),
    {
        let mut v: Vec<&'static str> = Vec::new();
        v.push("github");
        v.push("gitlab");
        v.push("pypi");
        v
    }
}

} // verus!
