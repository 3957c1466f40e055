//! The laws the handler obeys, stated and proved over the response model.

use vstd::prelude::*;
use crate::content_type::{
    extension_dot_ok, extension_of, has_extension, is_last_dot, lemma_last_dot_unique, mime_of,
};
use crate::handler::{resolve_model, template, ReplyModel};
use crate::paths::{joined, with_script_extension};
use crate::resolve::candidate_paths;

verus! {

/// A resolved request is served faithfully: when `contents[i]` is the first
/// probe that yielded bytes, the response carries exactly those bytes, with
/// the content type classified from that candidate's path.
pub proof fn lemma_first_hit_served(
    cands: Seq<Seq<char>>,
    contents: Seq<Option<Seq<u8>>>,
    i: int,
)
    requires
        cands.len() == contents.len(),
        0 <= i < contents.len(),
        contents[i] is Some,
        forall|j: int| 0 <= j < i ==> contents[j] is None,
    ensures
        resolve_model(cands, contents) == (ReplyModel::File {
            content_type: mime_of(cands[i]),
            body: contents[i]->0,
        }),
    decreases i,
{
    if i > 0 {
        assert(cands.skip(1)[i - 1] == cands[i]);
        assert(contents.skip(1)[i - 1] == contents[i]);
        assert(forall|j: int| 0 <= j < i - 1 ==> contents.skip(1)[j] is None);
        lemma_first_hit_served(cands.skip(1), contents.skip(1), i - 1);
    }
}

/// A path absent from both roots, with and without the extension fallback,
/// gets the fixed not-found response: when every probe failed, the response
/// is not-found.
pub proof fn lemma_absent_not_found(cands: Seq<Seq<char>>, contents: Seq<Option<Seq<u8>>>)
    requires
        cands.len() == contents.len(),
        forall|j: int| 0 <= j < contents.len() ==> contents[j] is None,
    ensures
        resolve_model(cands, contents) == ReplyModel::NotFound,
    decreases contents.len(),
{
    if contents.len() > 0 {
        assert(forall|j: int| 0 <= j < contents.len() - 1 ==> contents.skip(1)[j] is None);
        lemma_absent_not_found(cands.skip(1), contents.skip(1));
    }
}

/// The import-extension fallback: for a requested path with no extension
/// that is absent as-is from both roots, but whose script-extension variant
/// exists under a root, resolution succeeds and serves that variant — the
/// one under the work root first.
pub proof fn lemma_extension_fallback(
    path: Seq<char>,
    work: Seq<char>,
    project: Seq<char>,
    contents: Seq<Option<Seq<u8>>>,
)
    requires
        path.len() > 0,
        path[0] == '/',
        !has_extension(path.skip(1)),
        contents.len() == candidate_paths(path, work, project).len(),
        contents[0] is None,
        contents[1] is None,
        contents[2] is Some || contents[3] is Some,
    ensures
        resolve_model(candidate_paths(path, work, project), contents) == (if contents[2] is Some {
            ReplyModel::File {
                content_type: mime_of(joined(work, with_script_extension(path.skip(1)))),
                body: contents[2]->0,
            }
        } else {
            ReplyModel::File {
                content_type: mime_of(joined(project, with_script_extension(path.skip(1)))),
                body: contents[3]->0,
            }
        }),
{
    let cands = candidate_paths(path, work, project);
    assert(cands.len() == 4);
    if contents[2] is Some {
        lemma_first_hit_served(cands, contents, 2);
        assert(cands[2] == joined(work, with_script_extension(path.skip(1))));
    } else {
        lemma_first_hit_served(cands, contents, 3);
        assert(cands[3] == joined(project, with_script_extension(path.skip(1))));
    }
}

/// Appending the script extension to a path whose file-name component is
/// nonempty (the path does not end in a separator) yields a path classified
/// as the script content type, under either root.
pub proof fn lemma_script_fallback_mime(dir: Seq<char>, rel: Seq<char>)
    requires
        rel.len() > 0,
        rel.last() != '/',
    ensures
        mime_of(joined(dir, with_script_extension(rel))) == "text/javascript"@,
{
    reveal_strlit("/");
    reveal_strlit(".js");
    reveal_strlit("js");
    let q = joined(dir, with_script_extension(rel));
    let d = q.len() - 3;
    assert(q.len() == dir.len() + 1 + rel.len() + 3);
    assert(q[d] == '.');
    assert(q[d + 1] == 'j');
    assert(q[d + 2] == 's');
    assert(q[d - 1] == rel.last());
    assert forall|j: int| d < j < q.len() implies q[j] != '.' && q[j] != '/' by {
        assert(j == d + 1 || j == d + 2);
    }
    assert(is_last_dot(q, d));
    assert(extension_dot_ok(q, d));
    assert(has_extension(q));
    let d2 = choose|d2: int| is_last_dot(q, d2) && extension_dot_ok(q, d2);
    lemma_last_dot_unique(q, d, d2);
    assert(extension_of(q) =~= "js"@);
}

/// The import-extension fallback serves script content: under the
/// conditions of `lemma_extension_fallback`, when additionally the
/// requested path's relative part is nonempty and does not end in a
/// separator, the response is the fallback file's bytes with the script
/// content type. (A separator-terminated path ends in a dot-file candidate,
/// which the classifier maps to the generic binary type.)
pub proof fn lemma_extension_fallback_serves_script(
    path: Seq<char>,
    work: Seq<char>,
    project: Seq<char>,
    contents: Seq<Option<Seq<u8>>>,
)
    requires
        path.len() >= 2,
        path[0] == '/',
        path.last() != '/',
        !has_extension(path.skip(1)),
        contents.len() == candidate_paths(path, work, project).len(),
        contents[0] is None,
        contents[1] is None,
        contents[2] is Some || contents[3] is Some,
    ensures
        resolve_model(candidate_paths(path, work, project), contents) == (ReplyModel::File {
            content_type: "text/javascript"@,
            body: if contents[2] is Some {
                contents[2]->0
            } else {
                contents[3]->0
            },
        }),
{
    lemma_extension_fallback(path, work, project, contents);
    let rel = path.skip(1);
    assert(rel.len() > 0);
    assert(rel.last() == path.last());
    lemma_script_fallback_mime(work, rel);
    lemma_script_fallback_mime(project, rel);
}

/// The two root-page templates are distinct payloads: the page served with
/// the headless flag set differs from the interactive one.
pub proof fn lemma_templates_distinct()
    ensures
        template(true) != template(false),
{
    reveal_strlit("<html>\n<head><meta content=\"text/html;charset=utf-8\" http-equiv=\"Content-Type\"/></head>\n<body>\n<div id=\"output\">Loading scripts...</div>\n<script>\nconst output = document.getElementById('output');\nfor (const m of ['debug', 'log', 'info', 'warn', 'error']) {\n    const orig = console[m].bind(console);\n    console[m] = function (...args) {\n        if (window['on_console_' + m]) { window['on_console_' + m](args); }\n        output.textContent += args.join(' ') + '\\n';\n        orig(...args);\n    };\n}\n</script>\n<script src=\"run.js\" type=\"module\"></script>\n</body>\n</html>\n");
    reveal_strlit("<html>\n<head><meta content=\"text/html;charset=utf-8\" http-equiv=\"Content-Type\"/></head>\n<body>\n<div id=\"output\">Loading scripts...</div>\n<script src=\"run.js\" type=\"module\"></script>\n</body>\n</html>\n");
    assert(template(true).len() != template(false).len());
}

/// Idempotence: the response is a function of the candidate paths and the
/// probed file contents alone — no state survives a request — so repeated
/// identical requests with identical probe results get byte-identical
/// responses.
pub proof fn lemma_response_deterministic(
    r1: ReplyModel,
    r2: ReplyModel,
    cands: Seq<Seq<char>>,
    contents: Seq<Option<Seq<u8>>>,
)
    requires
        r1 == resolve_model(cands, contents),
        r2 == resolve_model(cands, contents),
    ensures
        r1 == r2,
{
}

} // verus!
