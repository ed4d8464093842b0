//! Derivation of the final output path, including the directory join used
//! by the ecosystem-integration transform.

use vstd::prelude::*;
use vstd::string::StrSliceExecFns;
use vstd::string::StringExecFns;

verus! {

/// `dir` joined with the entry `name`, with exactly one `/` between them:
/// a separator is inserted only when `dir` is non-empty and does not
/// already end in one.
pub open spec fn spec_join(dir: Seq<char>, name: Seq<char>) -> Seq<char> {
    if dir.len() == 0 {
        name
    } else if dir[dir.len() - 1] == '/' {
        dir + name
    } else {
        dir + "/"@ + name
    }
}

/// The output path of an ecosystem-integration resolution: the base path is
/// treated as a directory holding one subdirectory per package, each with
/// its own expression file.
pub open spec fn spec_integration_path(base: Seq<char>, package_name: Seq<char>) -> Seq<char> {
    spec_join(spec_join(base, package_name), "default.nix"@)
}

/// Executable counterpart of [`spec_join`].
pub fn join(dir: &str, name: &str) -> (r: String)
    ensures
        r@ == spec_join(dir@, name@),
{
    let n = dir.unicode_len();
    if n == 0 {
        return name.to_owned();
    }
    let mut out = String::from_str(dir);
    if dir.get_char(n - 1) != '/' {
        out.append("/");
    }
    out.append(name);
    proof {
        assert(out@ =~= spec_join(dir@, name@));
    }
    out
}

/// Executable counterpart of [`spec_integration_path`].
pub fn integration_path(base: &str, package_name: &str) -> (r: String)
    ensures
        r@ == spec_integration_path(base@, package_name@),
{
    let dir = join(base, package_name);
    join(dir.as_str(), "default.nix")
}

} // verus!
