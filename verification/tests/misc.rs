use kroki_rs::config::ServerConfig;
use kroki_rs::diagrams::DiagramError;
use kroki_rs::interface::{DiagramRequest, RenderRequestDto, RenderResponseDto};
use kroki_rs::server::guards;
use kroki_rs::server::pages::{dashboard_parts, discovery_parts, wrapped_lines};
use kroki_rs::text::{decimal, join, parse_u64, replace_all, sort_strings, sorted_unique, str_lt};

#[test]
fn request_mapping() {
    let dto = RenderRequestDto { source: "".into(), format: None, provider: None, width: None, height: None };
    match DiagramRequest::try_from(dto) {
        Err(DiagramError::ValidationFailed(m)) => assert_eq!(m, "Source content cannot be empty"),
        other => panic!("unexpected {:?}", other),
    }
    let dto = RenderRequestDto { source: "x".into(), format: None, provider: None, width: None, height: None };
    assert!(matches!(DiagramRequest::try_from(dto), Err(DiagramError::ValidationFailed(m)) if m == "Format must be specified"));
    let dto = RenderRequestDto { source: "x".into(), format: Some("svg".into()), provider: None, width: None, height: None };
    assert!(matches!(DiagramRequest::try_from(dto), Err(DiagramError::ValidationFailed(m)) if m == "Provider must be specified"));
    let dto = RenderRequestDto {
        source: "x".into(),
        format: Some("svg".into()),
        provider: Some("d2".into()),
        width: Some(3),
        height: None,
    };
    let req = DiagramRequest::try_from(dto).unwrap();
    assert_eq!((req.source.as_str(), req.format.as_str(), req.provider.as_str()), ("x", "svg", "d2"));
}

#[test]
fn response_encoding() {
    let r = RenderResponseDto::success(b"<svg/>".to_vec(), "image/svg+xml", 7);
    assert_eq!(r.result, "<svg/>");
    assert_eq!(r.duration_ms, 7);
    let r = RenderResponseDto::success(vec![0, 1, 2, 255], "image/png", 1);
    assert_eq!(r.result, "AAEC/w==");
    let r = RenderResponseDto::success(vec![0xff, b'a'], "text/plain", 1);
    assert_eq!(r.result, "\u{fffd}a");
}

#[test]
fn text_helpers() {
    assert_eq!(decimal(0), "0");
    assert_eq!(decimal(1234567890), "1234567890");
    assert_eq!(parse_u64("+17"), Some(17));
    assert_eq!(parse_u64("18446744073709551615"), Some(u64::MAX));
    assert_eq!(parse_u64("18446744073709551616"), None);
    assert_eq!(parse_u64(""), None);
    assert_eq!(parse_u64(" 1"), None);
    assert_eq!(join(&vec!["a".into(), "b".into()], ", "), "a, b");
    assert_eq!(replace_all("aXbXc", "X", "--"), "a--b--c");
    assert!(str_lt("ab", "b"));
    assert!(str_lt("a", "ab"));
    assert!(!str_lt("b", "b"));
    let v = vec!["b".to_string(), "a".to_string(), "b".to_string()];
    assert_eq!(sorted_unique(&v), vec!["a", "b"]);
    assert_eq!(sort_strings(&v), vec!["a", "b", "b"]);
}

#[test]
fn discovery_page_parts() {
    let mut server = ServerConfig::default();
    server.auth.enabled = true;
    let known = vec!["d2".to_string(), "dot".to_string()];
    let p = discovery_parts(&server, &known);
    assert_eq!(p.auth, ("status-enabled".to_string(), "Enabled".to_string()));
    assert_eq!(p.rate_limit, ("status-disabled".to_string(), "Disabled".to_string()));
    assert_eq!(p.metrics.1, "Enabled");
    assert_eq!(p.metrics_link, "<li><a href=\"http://localhost:8081/metrics\">📊 Prometheus Metrics</a></li>");
    assert_eq!(p.provider_count, 2);
    assert_eq!(p.provider_tags, "<div class=\"provider-tag\">d2</div>\n<div class=\"provider-tag\">dot</div>");
    server.metrics.export_endpoint = false;
    assert_eq!(discovery_parts(&server, &known).metrics_link, "");
}

#[test]
fn dashboard_page_parts() {
    let server = ServerConfig::default();
    let p = dashboard_parts(&server, &vec!["d2".to_string()]);
    assert_eq!(p.auth, ("disabled".to_string(), "Disabled (Dev Mode)".to_string()));
    assert_eq!(p.circuit_breaker.1, "Disabled");
    assert_eq!(p.provider_items, "<li>✅ d2</li>");
    assert_eq!(wrapped_lines(&vec![], "<", ">"), "");
}

#[test]
fn server_guards_follow_switches() {
    let mut server = ServerConfig::default();
    let g = guards(&server);
    assert!(g.rate_limiter.is_none() && g.circuit_breaker.is_none());
    server.rate_limit.enabled = true;
    server.circuit_breaker.enabled = true;
    let g = guards(&server);
    assert!(g.rate_limiter.is_some() && g.circuit_breaker.is_some());
}
