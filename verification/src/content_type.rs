//! Content-type classification for served assets.
//!
//! The wire content type of a response is derived solely from the resolved
//! file's extension: a fixed table maps the script, binary-module and markup
//! extensions to their canonical content-type strings, and anything else to a
//! generic binary type.

use vstd::prelude::*;
use vstd::string::*;

verus! {

/// `d` is the position of the last `'.'` in `p`.
pub open spec fn is_last_dot(p: Seq<char>, d: int) -> bool {
    &&& 0 <= d < p.len()
    &&& p[d] == '.'
    &&& forall|j: int| d < j < p.len() ==> p[j] != '.'
}

/// The last `'.'` of `p` at position `d` begins an extension: it lies in the
/// file-name component (no `'/'` follows it) and is not the file name's first
/// character.
pub open spec fn extension_dot_ok(p: Seq<char>, d: int) -> bool {
    &&& d >= 1
    &&& p[d - 1] != '/'
    &&& forall|j: int| d < j < p.len() ==> p[j] != '/'
}

/// The file-name component of `p` has an extension.
pub open spec fn has_extension(p: Seq<char>) -> bool {
    exists|d: int| is_last_dot(p, d) && extension_dot_ok(p, d)
}

/// The extension of `p`: everything after the last `'.'`.
pub open spec fn extension_of(p: Seq<char>) -> Seq<char>
    recommends
        has_extension(p),
{
    p.skip((choose|d: int| is_last_dot(p, d) && extension_dot_ok(p, d)) + 1)
}

pub proof fn lemma_last_dot_unique(p: Seq<char>, d1: int, d2: int)
    requires
        is_last_dot(p, d1),
        is_last_dot(p, d2),
    ensures
        d1 == d2,
{
    if d1 < d2 {
        assert(p[d2] != '.');
    } else if d2 < d1 {
        assert(p[d1] != '.');
    }
}

/// The extension of the file-name component of `p`, or `None` when it has
/// none (no `'.'` after the last `'/'`, or only as the file name's first
/// character).
pub fn extension(p: &str) -> (r: Option<String>)
    ensures
        r is Some <==> has_extension(p@),
        r is Some ==> r.unwrap()@ == extension_of(p@),
{
    let n = p.unicode_len();
    let mut i = n;
    loop
        invariant
            0 <= i <= n,
            n == p@.len(),
            forall|j: int| i <= j < n ==> p@[j] != '.' && p@[j] != '/',
        decreases i,
    {
        if i == 0 {
            assert(!has_extension(p@)) by {
                if has_extension(p@) {
                    let d = choose|d: int| is_last_dot(p@, d) && extension_dot_ok(p@, d);
                    assert(p@[d] != '.');
                }
            }
            return None;
        }
        let c = p.get_char(i - 1);
        if c == '/' {
            assert(!has_extension(p@)) by {
                if has_extension(p@) {
                    let d = choose|d: int| is_last_dot(p@, d) && extension_dot_ok(p@, d);
                    // any dot lies strictly before the '/' found at i - 1
                    assert(p@[d] == '.');
                    assert(d < i - 1);
                    assert(p@[i - 1] != '/');
                }
            }
            return None;
        }
        if c == '.' {
            let ghost d: int = i - 1;
            assert(is_last_dot(p@, d));
            if i - 1 == 0 {
                assert(!has_extension(p@)) by {
                    if has_extension(p@) {
                        let d2 = choose|d2: int| is_last_dot(p@, d2) && extension_dot_ok(p@, d2);
                        lemma_last_dot_unique(p@, d, d2);
                    }
                }
                return None;
            }
            let before = p.get_char(i - 2);
            if before == '/' {
                assert(!has_extension(p@)) by {
                    if has_extension(p@) {
                        let d2 = choose|d2: int| is_last_dot(p@, d2) && extension_dot_ok(p@, d2);
                        lemma_last_dot_unique(p@, d, d2);
                    }
                }
                return None;
            }
            assert(extension_dot_ok(p@, d));
            assert(has_extension(p@));
            let e = p.substring_char(i, n);
            proof {
                let d2 = choose|d2: int| is_last_dot(p@, d2) && extension_dot_ok(p@, d2);
                lemma_last_dot_unique(p@, d, d2);
                assert(e@ =~= extension_of(p@));
            }
            return Some(e.to_owned());
        }
        i = i - 1;
    }
}

/// The content type that extension `e` maps to.
pub open spec fn mime_of_extension(e: Seq<char>) -> Seq<char> {
    if e == "js"@ {
        "text/javascript"@
    } else if e == "wasm"@ {
        "application/wasm"@
    } else if e == "html"@ {
        "text/html"@
    } else {
        "application/octet-stream"@
    }
}

/// The content type served for a file at path `p`, determined by its
/// extension alone.
pub open spec fn mime_of(p: Seq<char>) -> Seq<char> {
    if has_extension(p) {
        mime_of_extension(extension_of(p))
    } else {
        "application/octet-stream"@
    }
}

/// Classifies a file path into the wire content type for its extension.
/// Total: unknown and absent extensions map to the generic binary type.
pub fn mime(p: &str) -> (r: String)
    ensures
        r@ == mime_of(p@),
{
    match extension(p) {
        None => String::from_str("application/octet-stream"),
        Some(e) => {
            if e == String::from_str("js") {
                String::from_str("text/javascript")
            } else if e == String::from_str("wasm") {
                String::from_str("application/wasm")
            } else if e == String::from_str("html") {
                String::from_str("text/html")
            } else {
                String::from_str("application/octet-stream")
            }
        },
    }
}

} // verus!
