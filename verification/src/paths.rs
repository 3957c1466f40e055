//! Plain string-level path operations used by the asset resolver.

use vstd::prelude::*;
use vstd::string::*;

verus! {

/// `dir` joined with the relative path `rel`: `dir`, one separator, `rel`.
pub open spec fn joined(dir: Seq<char>, rel: Seq<char>) -> Seq<char> {
    dir + "/"@ + rel
}

/// Joins a root directory and a relative path with a single separator.
pub fn join_path(dir: &str, rel: &str) -> (r: String)
    ensures
        r@ == joined(dir@, rel@),
{
    let mut s = dir.to_owned();
    s.append("/");
    s.append(rel);
    proof {
        assert(s@ =~= joined(dir@, rel@));
    }
    s
}

/// `p` with the script extension appended, as browsers expect when a module
/// import names a file by bare specifier.
pub open spec fn with_script_extension(p: Seq<char>) -> Seq<char> {
    p + ".js"@
}

/// Appends the script extension to an extension-less import path.
pub fn append_script_extension(p: &str) -> (r: String)
    ensures
        r@ == with_script_extension(p@),
{
    let mut s = p.to_owned();
    s.append(".js");
    s
}

} // verus!
