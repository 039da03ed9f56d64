use hyper::header::HeaderValue;
use request_handler::annotation::{
    first_forwarded_entry, forwarded_candidate, incoming_request_line, is_whitespace,
    real_remote_candidate, remote_addr_annotation,
};
use request_handler::config::{DirListFmt, RequestHandlerOpts};
use request_handler::stage::{Capabilities, Stage};
use request_handler::status::Status;

#[test]
fn default_options() {
    let o = RequestHandlerOpts::default();
    assert_eq!(o.root_dir, "./public");
    assert!(o.compression);
    assert!(!o.compression_static);
    assert!(!o.dir_listing);
    assert_eq!(o.dir_listing_order, 6);
    assert_eq!(o.dir_listing_format, DirListFmt::Html);
    assert!(!o.cors);
    assert!(!o.security_headers);
    assert!(o.cache_control_headers);
    assert_eq!(o.page404, "./404.html");
    assert_eq!(o.page50x, "./50x.html");
    assert!(o.page_fallback.is_empty());
    assert_eq!(o.basic_auth, "");
    assert_eq!(o.index_files, vec!["index.html".to_string()]);
    assert!(!o.log_remote_address);
    assert!(o.redirect_trailing_slash);
    assert!(!o.ignore_hidden_files);
    assert!(!o.health);
    assert!(!o.experimental_metrics);
    assert!(!o.maintenance_mode);
    assert_eq!(o.maintenance_mode_status.as_u16(), 503);
    assert_eq!(o.maintenance_mode_file, "");
    assert!(o.advanced_opts.is_none());
}

#[test]
fn status_numbers() {
    assert_eq!(Status::from_u16(99), None);
    assert_eq!(Status::from_u16(0), None);
    assert_eq!(Status::from_u16(100).map(|s| s.as_u16()), Some(100));
    assert_eq!(Status::from_u16(404).map(|s| s.as_u16()), Some(404));
    assert_eq!(Status::from_u16(999).map(|s| s.as_u16()), Some(999));
    assert_eq!(Status::from_u16(1000), None);
    assert_eq!(Status::from_u16(u16::MAX), None);
    assert_eq!(Status::method_not_allowed().as_u16(), 405);
    assert_eq!(Status::service_unavailable().as_u16(), 503);
}

#[test]
fn status_agrees_with_hyper() {
    assert_eq!(
        Status::method_not_allowed().as_u16(),
        hyper::StatusCode::METHOD_NOT_ALLOWED.as_u16()
    );
    assert_eq!(
        Status::service_unavailable().as_u16(),
        hyper::StatusCode::SERVICE_UNAVAILABLE.as_u16()
    );
    for n in [0u16, 99, 100, 200, 405, 599, 600, 999, 1000, 5000] {
        assert_eq!(Status::from_u16(n).is_some(), hyper::StatusCode::from_u16(n).is_ok());
    }
}

#[test]
fn status_classes() {
    let s = |n: u16| Status::from_u16(n).unwrap();
    assert!(!s(399).is_client_error());
    assert!(s(400).is_client_error());
    assert!(s(405).is_client_error());
    assert!(s(499).is_client_error());
    assert!(!s(500).is_client_error());
    assert!(!s(499).is_server_error());
    assert!(s(500).is_server_error());
    assert!(s(503).is_server_error());
    assert!(s(599).is_server_error());
    assert!(!s(600).is_server_error());
}

#[test]
fn stage_positions() {
    for i in 0u8..18 {
        let stage = Stage::from_index(i).unwrap();
        assert_eq!(stage.index(), i);
    }
    assert_eq!(Stage::from_index(18), None);
    assert_eq!(Stage::Health.index(), 0);
    assert_eq!(Stage::Resolve.index(), 10);
    assert_eq!(Stage::FallbackPage.index(), 11);
    assert_eq!(Stage::CustomHeaders.index(), 17);
}

#[test]
fn stage_kinds() {
    let filters = [
        Stage::Health,
        Stage::Metrics,
        Stage::CorsPreflight,
        Stage::BasicAuth,
        Stage::Maintenance,
        Stage::Redirects,
        Stage::Rewrites,
    ];
    for i in 0u8..18 {
        let stage = Stage::from_index(i).unwrap();
        assert_eq!(stage.is_filter(), filters.contains(&stage));
        assert_eq!(stage.is_transform(), i >= 11);
    }
}

#[test]
fn capability_sets() {
    let all = Capabilities::all();
    assert!(all.basic_auth && all.fallback_page && all.metrics);
    assert!(all.compression && all.directory_listing);
    let none = Capabilities::none();
    assert!(!none.basic_auth && !none.fallback_page && !none.metrics);
    assert!(!none.compression && !none.directory_listing);
}

#[test]
fn annotation_is_empty_when_not_logged() {
    assert_eq!(remote_addr_annotation(false, Some("10.0.0.1:4000"), Some("1.2.3.4")), "");
    assert_eq!(remote_addr_annotation(false, None, None), "");
}

#[test]
fn annotation_with_remote_address() {
    assert_eq!(
        remote_addr_annotation(true, Some("10.0.0.1:4000"), None),
        " remote_addr=10.0.0.1:4000"
    );
    assert_eq!(remote_addr_annotation(true, None, None), " remote_addr=");
}

#[test]
fn annotation_with_real_remote_ip() {
    assert_eq!(
        remote_addr_annotation(true, Some("10.0.0.1:4000"), Some("203.0.113.7")),
        " remote_addr=10.0.0.1:4000 real_remote_ip=203.0.113.7"
    );
    assert_eq!(
        remote_addr_annotation(true, None, Some("::1")),
        " remote_addr= real_remote_ip=::1"
    );
}

#[test]
fn first_entry_of_a_list() {
    assert_eq!(first_forwarded_entry("203.0.113.7, 10.0.0.1, 10.0.0.2"), "203.0.113.7");
    assert_eq!(first_forwarded_entry("  203.0.113.7\t,10.0.0.1"), "203.0.113.7");
    assert_eq!(first_forwarded_entry("203.0.113.7"), "203.0.113.7");
    assert_eq!(first_forwarded_entry(" a b "), "a b");
}

#[test]
fn first_entry_edge_cases() {
    assert_eq!(first_forwarded_entry(""), "");
    assert_eq!(first_forwarded_entry(","), "");
    assert_eq!(first_forwarded_entry("   "), "");
    assert_eq!(first_forwarded_entry("  ,1.2.3.4"), "");
    assert_eq!(first_forwarded_entry(",1.2.3.4"), "");
    assert_eq!(first_forwarded_entry("1.2.3.4,"), "1.2.3.4");
}

#[test]
fn first_entry_of_text_that_is_not_ascii() {
    assert_eq!(first_forwarded_entry("\u{a0}1.2.3.4\u{3000},x"), "1.2.3.4");
    assert_eq!(first_forwarded_entry("\u{e9}t\u{e9} , x"), "\u{e9}t\u{e9}");
}

#[test]
fn first_entry_agrees_with_split_and_trim() {
    for s in ["a,b", " a ,b", "", ",", " \t\r\n x \u{b}\u{c} ,", "\u{2003}x\u{85}", "x\u{200b}"] {
        assert_eq!(first_forwarded_entry(s), s.split(',').next().unwrap().trim());
    }
}

#[test]
fn white_space_agrees_with_std() {
    for n in 0u32..0x3100 {
        if let Some(c) = char::from_u32(n) {
            assert_eq!(is_whitespace(c), c.is_whitespace(), "U+{:04X}", n);
        }
    }
}

#[test]
fn candidate_from_a_header_value() {
    let v = HeaderValue::from_static(" 203.0.113.7 , 10.0.0.1");
    assert_eq!(forwarded_candidate(&v), Some("203.0.113.7".to_string()));
    let v = HeaderValue::from_static("");
    assert_eq!(forwarded_candidate(&v), Some(String::new()));
}

#[test]
fn candidate_from_a_value_that_is_no_text() {
    let v = HeaderValue::from_bytes(b"1.2.3.4\xff").unwrap();
    assert_eq!(forwarded_candidate(&v), None);
}

#[test]
fn candidate_from_the_headers_of_a_request() {
    let mut headers = hyper::HeaderMap::new();
    assert_eq!(real_remote_candidate(&headers), None);
    headers.insert("x-real-ip", HeaderValue::from_static("9.9.9.9"));
    assert_eq!(real_remote_candidate(&headers), None);
    headers.insert("x-forwarded-for", HeaderValue::from_static("203.0.113.7, 10.0.0.1"));
    assert_eq!(real_remote_candidate(&headers), Some("203.0.113.7".to_string()));
}

#[test]
fn log_line_of_a_request() {
    assert_eq!(
        incoming_request_line("GET", "/index.html?a=1", " remote_addr=10.0.0.1:4000"),
        "incoming request: method=GET uri=/index.html?a=1 remote_addr=10.0.0.1:4000"
    );
    assert_eq!(incoming_request_line("HEAD", "/", ""), "incoming request: method=HEAD uri=/");
}

#[test]
fn error_pages_by_status_class() {
    let o = RequestHandlerOpts::default();
    let s = |n: u16| Status::from_u16(n).unwrap();
    assert_eq!(o.error_page_path(s(404)).map(|p| p.as_str()), Some("./404.html"));
    assert_eq!(o.error_page_path(s(405)).map(|p| p.as_str()), Some("./404.html"));
    assert_eq!(o.error_page_path(s(400)).map(|p| p.as_str()), Some("./404.html"));
    assert_eq!(o.error_page_path(s(500)).map(|p| p.as_str()), Some("./50x.html"));
    assert_eq!(o.error_page_path(s(503)).map(|p| p.as_str()), Some("./50x.html"));
    assert_eq!(o.error_page_path(s(200)), None);
    assert_eq!(o.error_page_path(s(399)), None);
    assert_eq!(o.error_page_path(s(600)), None);
}
