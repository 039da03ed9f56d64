use request_handler::config::RequestHandlerOpts;
use request_handler::handler::{Action, Awaiting, Dispatch, Event, RequestHandler};
use request_handler::stage::{Capabilities, Stage};
use request_handler::status::Status;

#[derive(Clone, Debug, PartialEq)]
struct Resp {
    status: u16,
    headers: Vec<(String, String)>,
    body: String,
}

fn resp(status: u16, body: &str) -> Resp {
    Resp { status, headers: Vec::new(), body: body.to_string() }
}

fn set_header(mut r: Resp, name: &str, value: &str) -> Resp {
    r.headers.retain(|(n, _)| n != name);
    r.headers.push((name.to_string(), value.to_string()));
    r
}

fn header<'a>(r: &'a Resp, name: &str) -> Option<&'a str> {
    r.headers.iter().find(|(n, _)| n == name).map(|(_, v)| v.as_str())
}

/// What the stages outside the dispatcher answer in a test.
struct Sim {
    terminal: Vec<(Stage, Resp)>,
    method_allowed: bool,
    host_root: Option<String>,
    served: Option<(Resp, String)>,
    failure: u16,
    failing_transform: Option<Stage>,
    pages: Vec<(String, String)>,
}

fn sim() -> Sim {
    Sim {
        terminal: Vec::new(),
        method_allowed: true,
        host_root: None,
        served: Some((resp(200, "<h1>index</h1>"), "./public/index.html".to_string())),
        failure: 404,
        failing_transform: None,
        pages: vec![
            ("./404.html".to_string(), "not found page".to_string()),
            ("./50x.html".to_string(), "server error page".to_string()),
        ],
    }
}

fn render(sim: &Sim, status: Status, page404: &str, page50x: &str) -> Resp {
    let path = if status.is_client_error() {
        Some(page404)
    } else if status.is_server_error() {
        Some(page50x)
    } else {
        None
    };
    let body = path
        .and_then(|p| sim.pages.iter().find(|(n, _)| n == p).map(|(_, b)| b.clone()))
        .unwrap_or_else(|| format!("{}", status.as_u16()));
    Resp { status: status.as_u16(), headers: Vec::new(), body }
}

fn transform(
    h: &RequestHandler,
    sim: &Sim,
    stage: Stage,
    r: Resp,
    file_path: Option<String>,
) -> Result<Resp, String> {
    if sim.failing_transform == Some(stage) {
        return Err(format!("{:?} failed", stage));
    }
    Ok(match stage {
        Stage::FallbackPage => {
            if r.status == 404 && !h.opts.page_fallback.is_empty() {
                Resp {
                    status: 200,
                    headers: r.headers,
                    body: String::from_utf8(h.opts.page_fallback.clone()).unwrap(),
                }
            } else {
                r
            }
        }
        Stage::CorsHeaders => {
            if h.opts.cors {
                set_header(r, "Access-Control-Allow-Origin", "*")
            } else {
                r
            }
        }
        Stage::CompressionVary => {
            if h.opts.compression_static {
                set_header(r, "Vary", "Accept-Encoding")
            } else {
                r
            }
        }
        Stage::Compression => {
            if h.opts.compression && header(&r, "Content-Encoding").is_none() {
                set_header(r, "Content-Encoding", "gzip")
            } else {
                r
            }
        }
        Stage::CacheControl => {
            if h.opts.cache_control_headers {
                let r = set_header(r, "Cache-Control", "public, max-age=86400");
                set_header(r, "X-Conflict", "cache-control")
            } else {
                r
            }
        }
        Stage::SecurityHeaders => {
            if h.opts.security_headers {
                let r = set_header(r, "X-Content-Type-Options", "nosniff");
                set_header(r, "X-Conflict", "security")
            } else {
                r
            }
        }
        Stage::CustomHeaders => match file_path {
            Some(p) => set_header(r, "X-Served-File", &p),
            None => r,
        },
        _ => panic!("{:?} is no post-transform", stage),
    })
}

/// Runs the dispatcher against the simulated stages. Returns the result,
/// the stages and renders that ran, and the base path that the resolver
/// was called with.
fn run(h: &RequestHandler, sim: &Sim) -> (Result<Resp, String>, Vec<String>, Option<String>) {
    let mut trace: Vec<String> = Vec::new();
    let mut resolved_under: Option<String> = None;
    let (mut state, mut action) = h.handle::<Resp, String>(Dispatch::new(), Event::Arrived);
    for _ in 0..64 {
        let event = match action {
            Action::Finish(result) => {
                assert!(state.is_done());
                return (result, trace, resolved_under);
            }
            Action::Refuse => panic!("the dispatcher refused an answer to its own action"),
            Action::Filter(stage) => {
                trace.push(format!("{:?}", stage));
                Event::Filtered(
                    sim.terminal.iter().find(|(s, _)| *s == stage).map(|(_, r)| Ok(r.clone())),
                )
            }
            Action::Log => {
                trace.push("Log".to_string());
                Event::Logged
            }
            Action::CheckMethod => {
                trace.push("MethodCheck".to_string());
                Event::Method(sim.method_allowed)
            }
            Action::Render { status, page404, page50x } => {
                trace.push(format!("Render({})", status.as_u16()));
                Event::Rendered(Ok(render(sim, status, page404, page50x)))
            }
            Action::ResolveHost => {
                trace.push("VirtualHosts".to_string());
                Event::Host(sim.host_root.clone())
            }
            Action::Resolve(opts) => {
                trace.push("Resolve".to_string());
                resolved_under = Some(opts.base_path.clone());
                match &sim.served {
                    Some((r, p)) => Event::Served { response: r.clone(), file_path: p.clone() },
                    None => Event::Failed(Status::from_u16(sim.failure).unwrap()),
                }
            }
            Action::Transform { stage, response, file_path } => {
                trace.push(format!("{:?}", stage));
                Event::Transformed(transform(h, sim, stage, response, file_path))
            }
        };
        let next = h.handle(state, event);
        state = next.0;
        action = next.1;
    }
    panic!("the dispatcher did not finish");
}

fn handler(opts: RequestHandlerOpts) -> RequestHandler {
    RequestHandler::new(opts, Capabilities::all())
}

const PRE: [&str; 9] = [
    "Health",
    "Log",
    "MethodCheck",
    "Metrics",
    "CorsPreflight",
    "BasicAuth",
    "Maintenance",
    "Redirects",
    "Rewrites",
];

const POST: [&str; 7] = [
    "FallbackPage",
    "CorsHeaders",
    "CompressionVary",
    "Compression",
    "CacheControl",
    "SecurityHeaders",
    "CustomHeaders",
];

#[test]
fn index_is_served_with_cache_control() {
    let h = handler(RequestHandlerOpts::default());
    let (result, trace, base) = run(&h, &sim());
    let r = result.unwrap();
    assert_eq!(r.status, 200);
    assert_eq!(r.body, "<h1>index</h1>");
    assert_eq!(header(&r, "Cache-Control"), Some("public, max-age=86400"));
    assert_eq!(base.as_deref(), Some("./public"));
    let mut expected: Vec<String> = PRE.iter().map(|s| s.to_string()).collect();
    expected.push("Resolve".to_string());
    expected.extend(POST.iter().map(|s| s.to_string()));
    assert_eq!(trace, expected);
}

#[test]
fn index_without_cache_control_has_no_header() {
    let mut opts = RequestHandlerOpts::default();
    opts.cache_control_headers = false;
    let h = handler(opts);
    let (result, _, _) = run(&h, &sim());
    let r = result.unwrap();
    assert_eq!(r.status, 200);
    assert_eq!(header(&r, "Cache-Control"), None);
}

#[test]
fn missing_path_renders_404_page_with_security_headers() {
    let mut opts = RequestHandlerOpts::default();
    opts.security_headers = true;
    let h = handler(opts);
    let mut s = sim();
    s.served = None;
    s.failure = 404;
    let (result, trace, _) = run(&h, &s);
    let r = result.unwrap();
    assert_eq!(r.status, 404);
    assert_eq!(r.body, "not found page");
    assert_eq!(header(&r, "X-Content-Type-Options"), Some("nosniff"));
    assert_eq!(header(&r, "X-Served-File"), None);
    assert!(trace.contains(&"Render(404)".to_string()));
    assert_eq!(&trace[trace.len() - 7..], &POST.map(|s| s.to_string())[..]);
}

#[test]
fn server_failure_renders_50x_page() {
    let h = handler(RequestHandlerOpts::default());
    let mut s = sim();
    s.served = None;
    s.failure = 500;
    let (result, _, _) = run(&h, &s);
    let r = result.unwrap();
    assert_eq!(r.status, 500);
    assert_eq!(r.body, "server error page");
}

#[test]
fn maintenance_mode_short_circuits() {
    let mut opts = RequestHandlerOpts::default();
    opts.maintenance_mode = true;
    let h = handler(opts);
    assert_eq!(h.opts.maintenance_mode_status.as_u16(), 503);
    let mut s = sim();
    s.terminal.push((Stage::Maintenance, resp(503, "down for maintenance")));
    let (result, trace, base) = run(&h, &s);
    let r = result.unwrap();
    assert_eq!(r.status, 503);
    assert_eq!(r.body, "down for maintenance");
    assert!(r.headers.is_empty());
    assert_eq!(base, None);
    assert_eq!(trace, PRE[..7].iter().map(|s| s.to_string()).collect::<Vec<_>>());
}

#[test]
fn maintenance_mode_ignores_whether_the_path_exists() {
    let h = handler(RequestHandlerOpts::default());
    let mut found = sim();
    found.terminal.push((Stage::Maintenance, resp(503, "down")));
    let mut missing = sim();
    missing.served = None;
    missing.terminal.push((Stage::Maintenance, resp(503, "down")));
    assert_eq!(run(&h, &found).0, run(&h, &missing).0);
}

#[test]
fn basic_auth_failure_short_circuits() {
    let mut opts = RequestHandlerOpts::default();
    opts.basic_auth = "user:hash".to_string();
    let h = handler(opts);
    let mut s = sim();
    s.terminal.push((Stage::BasicAuth, resp(401, "")));
    let (result, trace, base) = run(&h, &s);
    assert_eq!(result.unwrap().status, 401);
    assert_eq!(base, None);
    assert!(!trace.contains(&"Resolve".to_string()));
    assert_eq!(trace.last().map(|s| s.as_str()), Some("BasicAuth"));
}

#[test]
fn disallowed_method_gets_405_from_the_client_error_page() {
    let h = handler(RequestHandlerOpts::default());
    let mut s = sim();
    s.method_allowed = false;
    let (result, trace, base) = run(&h, &s);
    let r = result.unwrap();
    assert_eq!(r.status, 405);
    assert_eq!(r.body, "not found page");
    assert!(r.headers.is_empty());
    assert_eq!(base, None);
    assert_eq!(trace, vec!["Health", "Log", "MethodCheck", "Render(405)"]);
}

#[test]
fn disallowed_method_asks_for_the_configured_pages() {
    let mut opts = RequestHandlerOpts::default();
    opts.page404 = "/pages/404.html".to_string();
    opts.page50x = "/pages/50x.html".to_string();
    let h = handler(opts);
    let state = Dispatch {
        awaiting: Awaiting::Reply(Stage::MethodCheck),
        base_path: "./public".to_string(),
        file_path: None,
    };
    let (state, action) = h.handle::<Resp, String>(state, Event::Method(false));
    assert_eq!(state.awaiting, Awaiting::Rejection);
    match action {
        Action::Render { status, page404, page50x } => {
            assert_eq!(status.as_u16(), 405);
            assert_eq!(page404, "/pages/404.html");
            assert_eq!(page50x, "/pages/50x.html");
        }
        _ => panic!("expected a render"),
    }
}

#[test]
fn health_probe_runs_before_the_log() {
    let mut opts = RequestHandlerOpts::default();
    opts.health = true;
    let h = handler(opts);
    let mut s = sim();
    s.terminal.push((Stage::Health, resp(200, "OK")));
    s.method_allowed = false;
    let (result, trace, _) = run(&h, &s);
    assert_eq!(result.unwrap().body, "OK");
    assert_eq!(trace, vec!["Health"]);
}

#[test]
fn first_terminal_filter_wins() {
    let h = handler(RequestHandlerOpts::default());
    let mut s = sim();
    s.terminal.push((Stage::Rewrites, resp(200, "rewritten")));
    s.terminal.push((Stage::Redirects, resp(301, "moved")));
    let (result, trace, _) = run(&h, &s);
    assert_eq!(result.unwrap().status, 301);
    assert_eq!(trace.last().map(|s| s.as_str()), Some("Redirects"));
}

#[test]
fn rewrite_match_is_terminal() {
    let h = handler(RequestHandlerOpts::default());
    let mut s = sim();
    s.terminal.push((Stage::Rewrites, resp(200, "rewritten")));
    let (result, trace, base) = run(&h, &s);
    let r = result.unwrap();
    assert_eq!(r.body, "rewritten");
    assert!(r.headers.is_empty());
    assert_eq!(base, None);
    assert_eq!(trace, PRE.iter().map(|s| s.to_string()).collect::<Vec<_>>());
}

#[test]
fn later_transform_wins_on_conflicting_header() {
    let mut opts = RequestHandlerOpts::default();
    opts.security_headers = true;
    opts.cache_control_headers = true;
    let h = handler(opts);
    let (result, _, _) = run(&h, &sim());
    let r = result.unwrap();
    assert_eq!(header(&r, "X-Conflict"), Some("security"));
}

#[test]
fn all_enabled_headers_are_present_on_success() {
    let mut opts = RequestHandlerOpts::default();
    opts.cors = true;
    opts.compression_static = true;
    opts.security_headers = true;
    let h = handler(opts);
    let (result, _, _) = run(&h, &sim());
    let r = result.unwrap();
    assert_eq!(header(&r, "Access-Control-Allow-Origin"), Some("*"));
    assert_eq!(header(&r, "Vary"), Some("Accept-Encoding"));
    assert_eq!(header(&r, "Content-Encoding"), Some("gzip"));
    assert_eq!(header(&r, "Cache-Control"), Some("public, max-age=86400"));
    assert_eq!(header(&r, "X-Content-Type-Options"), Some("nosniff"));
    assert_eq!(header(&r, "X-Served-File"), Some("./public/index.html"));
}

#[test]
fn second_run_of_the_transforms_changes_nothing() {
    let mut opts = RequestHandlerOpts::default();
    opts.cors = true;
    opts.security_headers = true;
    let h = handler(opts);
    let first = run(&h, &sim()).0.unwrap();
    let mut again = sim();
    again.served = Some((first.clone(), "./public/index.html".to_string()));
    let second = run(&h, &again).0.unwrap();
    let mut a = first.headers.clone();
    let mut b = second.headers.clone();
    a.sort();
    b.sort();
    assert_eq!(a, b);
    assert_eq!(first.body, second.body);
}

#[test]
fn failing_transform_is_fatal_and_ends_the_chain() {
    let h = handler(RequestHandlerOpts::default());
    let mut s = sim();
    s.failing_transform = Some(Stage::CacheControl);
    let (result, trace, _) = run(&h, &s);
    assert_eq!(result, Err("CacheControl failed".to_string()));
    assert_eq!(trace.last().map(|s| s.as_str()), Some("CacheControl"));
}

#[test]
fn fallback_page_replaces_not_found() {
    let mut opts = RequestHandlerOpts::default();
    opts.page_fallback = b"<app/>".to_vec();
    let h = handler(opts);
    let mut s = sim();
    s.served = None;
    let (result, _, _) = run(&h, &s);
    let r = result.unwrap();
    assert_eq!(r.status, 200);
    assert_eq!(r.body, "<app/>");
}

#[test]
fn absent_capabilities_are_skipped() {
    let h = RequestHandler::new(RequestHandlerOpts::default(), Capabilities::none());
    let mut s = sim();
    s.terminal.push((Stage::BasicAuth, resp(401, "")));
    s.terminal.push((Stage::Metrics, resp(200, "metrics")));
    let (result, trace, _) = run(&h, &s);
    assert_eq!(result.unwrap().status, 200);
    assert_eq!(
        trace,
        vec![
            "Health",
            "Log",
            "MethodCheck",
            "CorsPreflight",
            "Maintenance",
            "Redirects",
            "Rewrites",
            "Resolve",
            "CorsHeaders",
            "CacheControl",
            "SecurityHeaders",
            "CustomHeaders",
        ]
    );
}

#[test]
fn virtual_host_overrides_the_base_path() {
    let mut opts = RequestHandlerOpts::default();
    opts.advanced_opts = Some(request_handler::config::Advanced {
        virtual_hosts: Some(vec![request_handler::config::VirtualHost {
            host: "example.com".to_string(),
            root: "/srv/example".to_string(),
        }]),
    });
    let h = handler(opts);
    let mut s = sim();
    s.host_root = Some("/srv/example".to_string());
    let (_, trace, base) = run(&h, &s);
    assert_eq!(base.as_deref(), Some("/srv/example"));
    assert!(trace.contains(&"VirtualHosts".to_string()));

    s.host_root = None;
    let (_, _, base) = run(&h, &s);
    assert_eq!(base.as_deref(), Some("./public"));
}

#[test]
fn virtual_hosts_are_not_asked_without_advanced_options() {
    let h = handler(RequestHandlerOpts::default());
    let mut s = sim();
    s.host_root = Some("/srv/example".to_string());
    let (_, trace, base) = run(&h, &s);
    assert_eq!(base.as_deref(), Some("./public"));
    assert!(!trace.contains(&"VirtualHosts".to_string()));
}

#[test]
fn resolver_options_follow_the_configuration() {
    let mut opts = RequestHandlerOpts::default();
    opts.dir_listing = true;
    opts.dir_listing_order = 2;
    opts.ignore_hidden_files = true;
    opts.compression_static = true;
    opts.redirect_trailing_slash = false;
    let h = handler(opts);
    let state = Dispatch {
        awaiting: Awaiting::Reply(Stage::Rewrites),
        base_path: "/var/www".to_string(),
        file_path: None,
    };
    let (state, action) = h.handle::<Resp, String>(state, Event::Filtered(None));
    assert_eq!(state.awaiting, Awaiting::Reply(Stage::Resolve));
    match action {
        Action::Resolve(o) => {
            assert_eq!(o.base_path, "/var/www");
            assert!(o.dir_listing);
            assert_eq!(o.dir_listing_order, 2);
            assert!(o.ignore_hidden_files);
            assert!(o.compression_static);
            assert!(!o.redirect_trailing_slash);
            assert_eq!(o.index_files, &vec!["index.html".to_string()]);
        }
        _ => panic!("expected the resolution"),
    }
}

#[test]
fn directory_listing_needs_the_capability() {
    let mut opts = RequestHandlerOpts::default();
    opts.dir_listing = true;
    let h = RequestHandler::new(opts, Capabilities::none());
    let state = Dispatch {
        awaiting: Awaiting::Reply(Stage::Rewrites),
        base_path: "/var/www".to_string(),
        file_path: None,
    };
    match h.handle::<Resp, String>(state, Event::Filtered(None)).1 {
        Action::Resolve(o) => assert!(!o.dir_listing),
        _ => panic!("expected the resolution"),
    }
}

#[test]
fn only_custom_headers_see_the_file() {
    let h = handler(RequestHandlerOpts::default());
    let state = Dispatch {
        awaiting: Awaiting::Reply(Stage::CacheControl),
        base_path: "./public".to_string(),
        file_path: Some("./public/a.css".to_string()),
    };
    let (state, action) = h.handle::<Resp, String>(state, Event::Transformed(Ok(resp(200, "a"))));
    match action {
        Action::Transform { stage, file_path, .. } => {
            assert_eq!(stage, Stage::SecurityHeaders);
            assert_eq!(file_path, None);
        }
        _ => panic!("expected a transform"),
    }
    let (state, action) = h.handle::<Resp, String>(state, Event::Transformed(Ok(resp(200, "a"))));
    match action {
        Action::Transform { stage, file_path, .. } => {
            assert_eq!(stage, Stage::CustomHeaders);
            assert_eq!(file_path.as_deref(), Some("./public/a.css"));
        }
        _ => panic!("expected a transform"),
    }
    let (state, action) = h.handle::<Resp, String>(state, Event::Transformed(Ok(resp(200, "b"))));
    assert!(state.is_done());
    match action {
        Action::Finish(Ok(r)) => assert_eq!(r.body, "b"),
        _ => panic!("expected the end"),
    }
}

#[test]
fn unexpected_event_is_refused_and_changes_nothing() {
    let h = handler(RequestHandlerOpts::default());
    let state = Dispatch {
        awaiting: Awaiting::Reply(Stage::Maintenance),
        base_path: "./public".to_string(),
        file_path: None,
    };
    let (state, action) = h.handle::<Resp, String>(state, Event::Logged);
    assert!(matches!(action, Action::Refuse));
    assert_eq!(state.awaiting, Awaiting::Reply(Stage::Maintenance));
    assert_eq!(state.base_path, "./public");

    let (state, action) = h.handle::<Resp, String>(state, Event::Transformed(Ok(resp(200, ""))));
    assert!(matches!(action, Action::Refuse));

    let done = Dispatch { awaiting: Awaiting::Nothing, ..state };
    let (_, action) = h.handle::<Resp, String>(done, Event::Arrived);
    assert!(matches!(action, Action::Refuse));
}

#[test]
fn failing_error_page_is_fatal() {
    let h = handler(RequestHandlerOpts::default());
    let state = Dispatch {
        awaiting: Awaiting::FailurePage,
        base_path: "./public".to_string(),
        file_path: None,
    };
    let (state, action) =
        h.handle::<Resp, String>(state, Event::Rendered(Err("no page".to_string())));
    assert!(state.is_done());
    match action {
        Action::Finish(Err(e)) => assert_eq!(e, "no page"),
        _ => panic!("expected the end"),
    }
}

#[test]
fn next_stage_skips_what_does_not_run() {
    let h = RequestHandler::new(RequestHandlerOpts::default(), Capabilities::none());
    assert_eq!(h.next_stage(3), Some(Stage::CorsPreflight));
    assert_eq!(h.next_stage(5), Some(Stage::Maintenance));
    assert_eq!(h.next_stage(9), Some(Stage::Resolve));
    assert_eq!(h.next_stage(11), Some(Stage::CorsHeaders));
    assert_eq!(h.next_stage(13), Some(Stage::CacheControl));
    assert_eq!(h.next_stage(17), Some(Stage::CustomHeaders));
    assert_eq!(h.next_stage(18), None);
    assert_eq!(h.next_stage(255), None);
    let all = handler(RequestHandlerOpts::default());
    assert_eq!(all.next_stage(3), Some(Stage::Metrics));
    assert_eq!(all.next_stage(9), Some(Stage::Resolve));
    assert!(!all.stage_runs(Stage::VirtualHosts));
    assert!(all.stage_runs(Stage::BasicAuth));
}

#[test]
fn longest_run_asks_for_nineteen_pieces_of_work() {
    let mut opts = RequestHandlerOpts::default();
    opts.advanced_opts = Some(request_handler::config::Advanced { virtual_hosts: None });
    let h = handler(opts);
    let mut s = sim();
    s.served = None;
    let (result, trace, _) = run(&h, &s);
    assert_eq!(result.unwrap().status, 404);
    assert_eq!(trace.len(), 19);
    assert_eq!(trace[9], "VirtualHosts");
    assert_eq!(trace[10], "Resolve");
    assert_eq!(trace[11], "Render(404)");
}

#[test]
fn new_state_waits_for_the_request() {
    let state = Dispatch::new();
    assert_eq!(state.awaiting, Awaiting::Request);
    assert_eq!(state.base_path, "");
    assert_eq!(state.file_path, None);
    assert!(!state.is_done());
    let h = handler(RequestHandlerOpts::default());
    let (state, action) = h.handle::<Resp, String>(state, Event::Arrived);
    assert_eq!(state.awaiting, Awaiting::Reply(Stage::Health));
    assert_eq!(state.base_path, "./public");
    assert!(matches!(action, Action::Filter(Stage::Health)));
}
