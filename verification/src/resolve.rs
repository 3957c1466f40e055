//! Asset resolution: the ordered candidate locations tried for a requested
//! path, over two search roots.
//!
//! Generated artifacts live in a throwaway work directory while hand-written
//! or relatively-imported sources live in the project directory, so both
//! roots are searched in order. A requested path with no extension is retried
//! with the script extension appended, because module-import specifiers
//! conventionally omit it while the on-disk files carry it.

use vstd::prelude::*;
use crate::content_type::has_extension;
use crate::paths::{join_path, joined, append_script_extension, with_script_extension};

verus! {

/// The ordered candidate file paths for the requested path `path`: first the
/// path joined under each root, then, when it has no extension, the same two
/// joins with the script extension appended. A path without a leading
/// separator yields no candidates.
pub open spec fn candidate_paths(path: Seq<char>, work: Seq<char>, project: Seq<char>) -> Seq<
    Seq<char>,
> {
    if path.len() == 0 || path[0] != '/' {
        Seq::empty()
    } else {
        let rel = path.skip(1);
        if has_extension(rel) {
            seq![joined(work, rel), joined(project, rel)]
        } else {
            seq![
                joined(work, rel),
                joined(project, rel),
                joined(work, with_script_extension(rel)),
                joined(project, with_script_extension(rel)),
            ]
        }
    }
}

/// Computes the candidate file locations for a requested path, in the exact
/// order they are to be probed.
pub fn resolution_candidates(path: &str, work: &str, project: &str) -> (r: Vec<String>)
    ensures
        r.deep_view() == candidate_paths(path@, work@, project@),
{
    let mut v: Vec<String> = Vec::new();
    let n = path.unicode_len();
    if n == 0 {
        proof {
            assert(v.deep_view() =~= candidate_paths(path@, work@, project@));
        }
        return v;
    }
    if path.get_char(0) != '/' {
        proof {
            assert(v.deep_view() =~= candidate_paths(path@, work@, project@));
        }
        return v;
    }
    let rel = path.substring_char(1, n);
    proof {
        assert(rel@ =~= path@.skip(1));
    }
    v.push(join_path(work, rel));
    v.push(join_path(project, rel));
    if crate::content_type::extension(rel).is_none() {
        let rel_js = append_script_extension(rel);
        v.push(join_path(work, rel_js.as_str()));
        v.push(join_path(project, rel_js.as_str()));
    }
    proof {
        assert(v.deep_view() =~= candidate_paths(path@, work@, project@));
    }
    v
}

} // verus!
