//! Per-request handling: the response model, the two root-page templates,
//! request planning and the resolution of probed candidates into a response.
//!
//! A request is handled in two steps. `plan_for_path` turns a parsed request
//! path into either an immediate response (the root page) or an ordered list
//! of candidate file locations to probe. `finish_request` then turns the
//! probe results into the final response: the first candidate that yielded
//! bytes is served with the content type classified from its path, and a
//! request for which every probe failed gets the fixed empty not-found
//! response.

use vstd::prelude::*;
use vstd::string::*;
use crate::content_type::{mime, mime_of};
use crate::request_url::{parse_request_path, url_parses, url_path_of};
use crate::resolve::{candidate_paths, resolution_candidates};

verus! {

/// The root page served in interactive runs: console output stays on the
/// browser's native console.
pub const INTERACTIVE_PAGE: &'static str = "<html>\n<head><meta content=\"text/html;charset=utf-8\" http-equiv=\"Content-Type\"/></head>\n<body>\n<div id=\"output\">Loading scripts...</div>\n<script src=\"run.js\" type=\"module\"></script>\n</body>\n</html>\n";

/// The root page served in headless runs: captured console output is also
/// appended to the output element so a consoleless automated driver can
/// scrape results from the DOM.
pub const HEADLESS_PAGE: &'static str = "<html>\n<head><meta content=\"text/html;charset=utf-8\" http-equiv=\"Content-Type\"/></head>\n<body>\n<div id=\"output\">Loading scripts...</div>\n<script>\nconst output = document.getElementById('output');\nfor (const m of ['debug', 'log', 'info', 'warn', 'error']) {\n    const orig = console[m].bind(console);\n    console[m] = function (...args) {\n        if (window['on_console_' + m]) { window['on_console_' + m](args); }\n        output.textContent += args.join(' ') + '\\n';\n        orig(...args);\n    };\n}\n</script>\n<script src=\"run.js\" type=\"module\"></script>\n</body>\n</html>\n";

/// The mathematical model of a response: the root page's markup, a resolved
/// file's bytes with their content type, or the empty not-found response.
#[verifier::ext_equal]
pub enum ReplyModel {
    Page { html: Seq<char> },
    File { content_type: Seq<char>, body: Seq<u8> },
    NotFound,
}

/// A response: one of the two root-page templates, a resolved file's bytes
/// with a content type, or the empty not-found response.
pub enum HttpReply {
    Page { html: String },
    File { content_type: String, body: Vec<u8> },
    NotFound,
}

impl View for HttpReply {
    type V = ReplyModel;

    open spec fn view(&self) -> ReplyModel {
        match self {
            HttpReply::Page { html } => ReplyModel::Page { html: html@ },
            HttpReply::File { content_type, body } => ReplyModel::File {
                content_type: content_type@,
                body: body@,
            },
            HttpReply::NotFound => ReplyModel::NotFound,
        }
    }
}

impl HttpReply {
    /// The status code a response is sent with: one success family for
    /// served content, one failure family for absence.
    pub fn status_code(&self) -> (r: u16)
        ensures
            r == (if self@ is NotFound {
                404u16
            } else {
                200u16
            }),
    {
        match self {
            HttpReply::NotFound => 404,
            _ => 200,
        }
    }

    /// The content type the response is sent with: the classified type for a
    /// resolved file, markup for the root page, none for not-found.
    pub fn content_type_header(&self) -> (r: Option<String>)
        ensures
            match self@ {
                ReplyModel::Page { .. } => r is Some && r.unwrap()@ == "text/html"@,
                ReplyModel::File { content_type, .. } => r is Some && r.unwrap()@ == content_type,
                ReplyModel::NotFound => r is None,
            },
    {
        match self {
            HttpReply::Page { .. } => Some(String::from_str("text/html")),
            HttpReply::File { content_type, .. } => Some(content_type.clone()),
            HttpReply::NotFound => None,
        }
    }
}

/// The root-page markup for the given mode.
pub open spec fn template(headless: bool) -> Seq<char> {
    if headless {
        HEADLESS_PAGE@
    } else {
        INTERACTIVE_PAGE@
    }
}

/// The response to a request for the root path.
pub open spec fn root_reply(headless: bool) -> ReplyModel {
    ReplyModel::Page { html: template(headless) }
}

/// Serves the root page: the headless template when `headless` is set, the
/// interactive template otherwise.
pub fn root_page(headless: bool) -> (r: HttpReply)
    ensures
        r@ == root_reply(headless),
{
    if headless {
        HttpReply::Page { html: String::from_str(HEADLESS_PAGE) }
    } else {
        HttpReply::Page { html: String::from_str(INTERACTIVE_PAGE) }
    }
}

/// The model of a request plan: an immediate response, or the ordered
/// candidate paths to probe on disk.
#[verifier::ext_equal]
pub enum PlanModel {
    Respond { reply: ReplyModel },
    Probe { candidates: Seq<Seq<char>> },
}

/// What to do for a request: respond immediately, or probe the candidate
/// file locations in order and resolve via `finish_request`.
pub enum RequestPlan {
    Respond(HttpReply),
    Probe(Vec<String>),
}

impl View for RequestPlan {
    type V = PlanModel;

    open spec fn view(&self) -> PlanModel {
        match self {
            RequestPlan::Respond(reply) => PlanModel::Respond { reply: reply@ },
            RequestPlan::Probe(candidates) => PlanModel::Probe {
                candidates: candidates.deep_view(),
            },
        }
    }
}

/// The plan for a parsed request path: the root path gets the mode's
/// template, anything else an ordered probe of the candidate locations under
/// the work and project roots.
pub open spec fn plan_for_path_model(
    path: Seq<char>,
    work: Seq<char>,
    project: Seq<char>,
    headless: bool,
) -> PlanModel {
    if path == "/"@ {
        PlanModel::Respond { reply: root_reply(headless) }
    } else {
        PlanModel::Probe { candidates: candidate_paths(path, work, project) }
    }
}

/// Plans the handling of a request whose path component is already parsed.
pub fn plan_for_path(path: &str, work: &str, project: &str, headless: bool) -> (r: RequestPlan)
    ensures
        r@ == plan_for_path_model(path@, work@, project@, headless),
{
    if path.to_owned() == String::from_str("/") {
        RequestPlan::Respond(root_page(headless))
    } else {
        RequestPlan::Probe(resolution_candidates(path, work, project))
    }
}

/// The construct-once handler state shared by all per-request workers:
/// the root for generated artifacts (the work directory), the root for
/// source-relative assets (the project directory), and the flag selecting
/// the headless root-page template. It is never mutated after construction.
pub struct HandlerConfig {
    pub work_dir: String,
    pub project_dir: String,
    pub headless: bool,
}

impl HandlerConfig {
    /// Builds the handler state for one server run.
    pub fn new(work_dir: String, project_dir: String, headless: bool) -> (r: HandlerConfig)
        ensures
            r.work_dir == work_dir,
            r.project_dir == project_dir,
            r.headless == headless,
    {
        HandlerConfig { work_dir, project_dir, headless }
    }

    /// Plans the handling of one request from its raw target. A target that
    /// does not parse as a URL reference gets exactly the not-found
    /// response; every target that does parse gets exactly the plan for its
    /// parsed path component.
    pub fn plan_request(&self, raw_url: &str) -> (r: RequestPlan)
        ensures
            url_parses(raw_url@) ==> r@ == plan_for_path_model(
                url_path_of(raw_url@),
                self.work_dir@,
                self.project_dir@,
                self.headless,
            ),
            !url_parses(raw_url@) ==> r@ == (PlanModel::Respond { reply: ReplyModel::NotFound }),
    {
        match parse_request_path(raw_url) {
            None => RequestPlan::Respond(HttpReply::NotFound),
            Some(p) => plan_for_path(
                p.as_str(),
                self.work_dir.as_str(),
                self.project_dir.as_str(),
                self.headless,
            ),
        }
    }
}

/// The response determined by probe results: the first candidate whose probe
/// yielded bytes is served with the content type of its path; if every probe
/// failed, the empty not-found response.
pub open spec fn resolve_model(cands: Seq<Seq<char>>, contents: Seq<Option<Seq<u8>>>) -> ReplyModel
    recommends
        cands.len() == contents.len(),
    decreases contents.len(),
{
    if contents.len() == 0 {
        ReplyModel::NotFound
    } else if contents[0] is Some {
        ReplyModel::File { content_type: mime_of(cands[0]), body: contents[0]->0 }
    } else {
        resolve_model(cands.skip(1), contents.skip(1))
    }
}

/// Resolves probe results into the final response. `contents[i]` holds the
/// bytes read for `candidates[i]`, or `None` where no readable file exists
/// there.
pub fn finish_request(candidates: &Vec<String>, contents: Vec<Option<Vec<u8>>>) -> (r: HttpReply)
    requires
        candidates@.len() == contents@.len(),
    ensures
        r@ == resolve_model(candidates.deep_view(), contents.deep_view()),
{
    let n = candidates.len();
    let mut probes = contents;
    let mut i: usize = 0;
    proof {
        assert(candidates.deep_view().skip(0) =~= candidates.deep_view());
        assert(probes.deep_view().skip(0) =~= probes.deep_view());
    }
    while i < n
        invariant
            0 <= i <= n,
            n == candidates@.len(),
            probes@ == contents@,
            contents@.len() == n,
            forall|j: int| 0 <= j < i ==> probes.deep_view()[j] is None,
            resolve_model(candidates.deep_view(), probes.deep_view()) == resolve_model(
                candidates.deep_view().skip(i as int),
                probes.deep_view().skip(i as int),
            ),
        decreases n - i,
    {
        if probes[i].is_some() {
            let ghost cdv = candidates.deep_view();
            let ghost ctv = probes.deep_view();
            let c = probes.remove(i);
            let body = c.unwrap();
            let ct = mime(candidates[i].as_str());
            let r = HttpReply::File { content_type: ct, body };
            proof {
                assert(ctv.skip(i as int)[0] == ctv[i as int]);
                assert(cdv.skip(i as int)[0] == cdv[i as int]);
                assert(r@ == resolve_model(cdv.skip(i as int), ctv.skip(i as int)));
            }
            return r;
        }
        proof {
            let cdv = candidates.deep_view();
            let ctv = probes.deep_view();
            assert(ctv.skip(i as int)[0] == ctv[i as int]);
            assert(ctv.skip(i as int)[0] is None);
            assert(cdv.skip(i as int).skip(1) =~= cdv.skip(i + 1));
            assert(ctv.skip(i as int).skip(1) =~= ctv.skip(i + 1));
        }
        i = i + 1;
    }
    proof {
        assert(probes.deep_view() =~= contents.deep_view());
        assert(probes.deep_view().skip(n as int) =~= Seq::<Option<Seq<u8>>>::empty());
        assert(candidates.deep_view().skip(n as int) =~= Seq::<Seq<char>>::empty());
    }
    HttpReply::NotFound
}

} // verus!
