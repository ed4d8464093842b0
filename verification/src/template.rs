//! The closed set of boilerplate templates, each with its own default
//! parameter overrides.

use vstd::prelude::*;

use crate::casing::lower;
use crate::casing::matches_token;
use crate::fetcher::Fetcher;

verus! {

/// A boilerplate template target. The set is closed: a user-supplied name
/// either matches one of these variants case-insensitively or is rejected.
#[derive(Clone, Copy, Debug, PartialEq, Eq, Structural)]
pub enum Template {
    /// A generic derivation skeleton; the baseline when the user selects
    /// no template.
    Stdenv,
    /// A Python package expression.
    Python,
    /// A bare shell-environment scaffold.
    Mkshell,
}

/// The lowercase name token of each variant. Tokens are unique, which keeps
/// case-insensitive lookup unambiguous.
pub open spec fn spec_template_name(t: Template) -> Seq<char> {
    match t {
        Template::Stdenv => "stdenv"@,
        Template::Python => "python"@,
        Template::Mkshell => "mkshell"@,
    }
}

/// Case-insensitive lookup from a raw user string to a variant: the string's
/// lowercase image must equal a variant's whole name token, no prefix
/// matching.
pub open spec fn spec_template_from_name(s: Seq<char>) -> Option<Template> {
    if lower(s) == spec_template_name(Template::Stdenv) {
        Some(Template::Stdenv)
    } else if lower(s) == spec_template_name(Template::Python) {
        Some(Template::Python)
    } else if lower(s) == spec_template_name(Template::Mkshell) {
        Some(Template::Mkshell)
    } else {
        None
    }
}

/// The fetcher a template implies when the user does not override it.
/// A Python expression is fetched from the package index by default; the
/// other templates declare no preference and fall back to the global
/// baseline.
pub open spec fn spec_default_fetcher(t: Template) -> Option<Fetcher> {
    match t {
        Template::Python => Some(Fetcher::Pypi),
        _ => None,
    }
}

/// The relative output path a template implies when the user supplies none.
/// A shell scaffold is conventionally written to `shell.nix`; the other
/// templates declare no preference and fall back to the global baseline.
pub open spec fn spec_default_output_path(t: Template) -> Option<Seq<char>> {
    match t {
        Template::Mkshell => Some("shell.nix"@),
        _ => None,
    }
}

/// Whether the template's boilerplate body materially uses a package
/// identity, so that resolution must fail when no package name is supplied.
/// The shell scaffold carries no package identity, and the generic skeleton
/// renders a placeholder, so only the Python package template demands a
/// name.
pub open spec fn spec_requires_package_name(t: Template) -> bool {
    match t {
        Template::Python => true,
        _ => false,
    }
}

impl Template {
    /// The variant's lowercase name token, as rendered into help text.
    pub fn name(&self) -> (r: &'static str)
        ensures
            r@ == spec_template_name(*self),
    {
        match self {
            Template::Stdenv => "stdenv",
            Template::Python => "python",
            Template::Mkshell => "mkshell",
        }
    }

    /// Looks a raw user string up case-insensitively among the variants.
    pub fn from_name(s: &str) -> (r: Option<Template>)
        ensures
            r == spec_template_from_name(s@),
    {
        if matches_token(s, "stdenv") {
            Some(Template::Stdenv)
        } else if matches_token(s, "python") {
            Some(Template::Python)
        } else if matches_token(s, "mkshell") {
            Some(Template::Mkshell)
        } else {
            None
        }
    }

    /// The closed list of valid name tokens, for input validation and help
    /// text.
    pub fn variants() -> (v: Vec<&'static str>)
        ensures
            v@.len() == 3,
            v@[0]@ == spec_template_name(Template::Stdenv),
            v@[1]@ == spec_template_name(Template::Python),
            v@[2]@ == spec_template_name(Template::Mkshell),
    {
        let mut v: Vec<&'static str> = Vec::new();
        v.push("stdenv");
        v.push("python");
        v.push("mkshell");
        v
    }

    /// The fetcher this template implies when the user does not override it.
    pub fn default_fetcher(&self) -> (r: Option<Fetcher>)
        ensures
            r == spec_default_fetcher(*self),
    {
        match self {
            Template::Python => Some(Fetcher::Pypi),
            _ => None,
        }
    }

    /// The relative output path this template implies when the user
    /// supplies none.
    pub fn default_output_path(&self) -> (r: Option<&'static str>)
        ensures
            match r {
                Some(p) => spec_default_output_path(*self) == Some(p@),
                None => spec_default_output_path(*self) is None,
            },
    {
        match self {
            Template::Mkshell => Some("shell.nix"),
            _ => None,
        }
    }

    /// Whether this template demands a package name regardless of the
    /// integration mode.
    pub fn requires_package_name(&self) -> (r: bool)
        ensures
            r == spec_requires_package_name(*self),
    {
        match self {
            Template::Python => true,
            _ => false,
        }
    }
}

} // verus!
