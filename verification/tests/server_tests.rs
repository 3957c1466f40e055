use harness_server::content_type::mime;
use harness_server::handler::{finish_request, plan_for_path, HandlerConfig, HttpReply, RequestPlan};
use harness_server::resolve::resolution_candidates;

#[test]
fn mime_table_known_extensions() {
    assert_eq!(mime("foo.js"), "text/javascript");
    assert_eq!(mime("dir/mod.wasm"), "application/wasm");
    assert_eq!(mime("index.html"), "text/html");
}

#[test]
fn mime_unknown_or_missing_extension_is_binary() {
    assert_eq!(mime("picture.png"), "application/octet-stream");
    assert_eq!(mime("noext"), "application/octet-stream");
    assert_eq!(mime("dir.d/noext"), "application/octet-stream");
    assert_eq!(mime(".gitignore"), "application/octet-stream");
    assert_eq!(mime("a/.hidden"), "application/octet-stream");
    assert_eq!(mime(""), "application/octet-stream");
    assert_eq!(mime("trailing."), "application/octet-stream");
    assert_eq!(mime("foo.JS"), "application/octet-stream");
}

#[test]
fn candidates_with_extension_probe_both_roots() {
    let c = resolution_candidates("/foo.js", "tmp", ".");
    assert_eq!(c, vec!["tmp/foo.js", "./foo.js"]);
}

#[test]
fn candidates_without_extension_add_script_fallback() {
    let c = resolution_candidates("/foo", "tmp", ".");
    assert_eq!(c, vec!["tmp/foo", "./foo", "tmp/foo.js", "./foo.js"]);
}

#[test]
fn candidates_nested_path() {
    let c = resolution_candidates("/a/b/mod.wasm", "work", "proj");
    assert_eq!(c, vec!["work/a/b/mod.wasm", "proj/a/b/mod.wasm"]);
}

#[test]
fn candidates_without_leading_separator_are_empty() {
    let c = resolution_candidates("foo.js", "tmp", ".");
    assert!(c.is_empty());
}

#[test]
fn first_existing_candidate_is_served_with_its_content_type() {
    let cands = vec!["tmp/foo.js".to_string(), "./foo.js".to_string()];
    let contents = vec![Some(b"first".to_vec()), Some(b"second".to_vec())];
    match finish_request(&cands, contents) {
        HttpReply::File { content_type, body } => {
            assert_eq!(content_type, "text/javascript");
            assert_eq!(body, b"first".to_vec());
        }
        _ => panic!("expected a file response"),
    }
}

#[test]
fn later_candidate_is_served_when_earlier_ones_are_absent() {
    let cands = vec![
        "tmp/foo".to_string(),
        "./foo".to_string(),
        "tmp/foo.js".to_string(),
        "./foo.js".to_string(),
    ];
    let contents = vec![None, None, Some(b"fallback".to_vec()), None];
    match finish_request(&cands, contents) {
        HttpReply::File { content_type, body } => {
            assert_eq!(content_type, "text/javascript");
            assert_eq!(body, b"fallback".to_vec());
        }
        _ => panic!("expected a file response"),
    }
}

#[test]
fn absent_everywhere_is_not_found() {
    let cands = vec!["tmp/foo".to_string(), "./foo".to_string()];
    let reply = finish_request(&cands, vec![None, None]);
    assert!(matches!(reply, HttpReply::NotFound));
    assert_eq!(reply.status_code(), 404);
    assert!(reply.content_type_header().is_none());
}

#[test]
fn empty_candidate_list_is_not_found() {
    let reply = finish_request(&Vec::new(), Vec::new());
    assert!(matches!(reply, HttpReply::NotFound));
}

#[test]
fn root_path_serves_template_by_mode() {
    let interactive = match plan_for_path("/", "tmp", ".", false) {
        RequestPlan::Respond(HttpReply::Page { html }) => html,
        _ => panic!("expected the root page"),
    };
    let headless = match plan_for_path("/", "tmp", ".", true) {
        RequestPlan::Respond(HttpReply::Page { html }) => html,
        _ => panic!("expected the root page"),
    };
    assert_ne!(interactive, headless);
    assert!(headless.contains("output.textContent"));
    assert!(!interactive.contains("output.textContent"));
    assert!(interactive.contains("run.js"));
    assert!(headless.contains("run.js"));
}

#[test]
fn page_reply_is_markup_with_success_status() {
    match plan_for_path("/", "tmp", ".", false) {
        RequestPlan::Respond(reply) => {
            assert_eq!(reply.status_code(), 200);
            assert_eq!(reply.content_type_header().unwrap(), "text/html");
        }
        _ => panic!("expected an immediate response"),
    }
}

#[test]
fn non_root_path_is_probed() {
    match plan_for_path("/foo.js", "tmp", ".", false) {
        RequestPlan::Probe(c) => assert_eq!(c, vec!["tmp/foo.js", "./foo.js"]),
        _ => panic!("expected a probe plan"),
    }
}

#[test]
fn query_and_fragment_are_ignored_for_resolution() {
    let config = HandlerConfig::new("tmp".to_string(), ".".to_string(), false);
    match config.plan_request("/foo.js?filter=abc#frag") {
        RequestPlan::Probe(c) => assert_eq!(c, vec!["tmp/foo.js", "./foo.js"]),
        _ => panic!("expected a probe plan"),
    }
}

#[test]
fn dot_segments_are_resolved_by_url_parsing() {
    let config = HandlerConfig::new("tmp".to_string(), ".".to_string(), false);
    match config.plan_request("/a/../foo.js") {
        RequestPlan::Probe(c) => assert_eq!(c, vec!["tmp/foo.js", "./foo.js"]),
        _ => panic!("expected a probe plan"),
    }
}

#[test]
fn malformed_request_target_is_not_found() {
    let config = HandlerConfig::new("tmp".to_string(), ".".to_string(), false);
    match config.plan_request("http://exa mple/foo.js") {
        RequestPlan::Respond(reply) => assert!(matches!(reply, HttpReply::NotFound)),
        _ => panic!("expected an immediate not-found response"),
    }
}

#[test]
fn root_request_through_config_serves_headless_template() {
    let config = HandlerConfig::new("tmp".to_string(), ".".to_string(), true);
    match config.plan_request("/") {
        RequestPlan::Respond(HttpReply::Page { html }) => {
            assert!(html.contains("output.textContent"));
        }
        _ => panic!("expected the root page"),
    }
}

#[test]
fn repeated_identical_requests_get_identical_responses() {
    let cands = vec!["tmp/app.wasm".to_string(), "./app.wasm".to_string()];
    let contents = vec![None, Some(vec![0u8, 159, 146, 150])];
    let first = finish_request(&cands, contents.clone());
    let second = finish_request(&cands, contents);
    match (first, second) {
        (
            HttpReply::File { content_type: ct1, body: b1 },
            HttpReply::File { content_type: ct2, body: b2 },
        ) => {
            assert_eq!(ct1, ct2);
            assert_eq!(b1, b2);
            assert_eq!(ct1, "application/wasm");
        }
        _ => panic!("expected two file responses"),
    }
}

#[test]
fn interleaved_requests_to_distinct_assets_are_isolated() {
    // The handler holds no mutable state, so distinct requests cannot
    // corrupt one another whatever their interleaving: each planned and
    // finished here with others in flight gets exactly its own bytes.
    let config = HandlerConfig::new("tmp".to_string(), ".".to_string(), false);
    let plans: Vec<Vec<String>> = (0..16u8)
        .map(|k| match config.plan_request(&format!("/asset{}.js", k)) {
            RequestPlan::Probe(c) => c,
            _ => panic!("expected a probe plan"),
        })
        .collect();
    for (k, cands) in plans.iter().enumerate() {
        let body = vec![k as u8; 8];
        let contents = vec![Some(body.clone()), None];
        match finish_request(cands, contents) {
            HttpReply::File { content_type, body: served } => {
                assert_eq!(content_type, "text/javascript");
                assert_eq!(served, body);
                assert_eq!(cands[0], format!("tmp/asset{}.js", k));
            }
            _ => panic!("expected a file response"),
        }
    }
}
