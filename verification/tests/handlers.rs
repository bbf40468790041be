use base64::Engine as _;
use flate2::write::ZlibEncoder;
use flate2::Compression;
use kroki_rs::capabilities::Capabilities;
use kroki_rs::config::Config;
use kroki_rs::diagrams::registry::DiagramRegistry;
use kroki_rs::diagrams::DiagramError;
use kroki_rs::config::CircuitBreakerConfig;
use kroki_rs::server::circuit_breaker::CircuitBreakerManager;
use kroki_rs::server::handlers::{
    admit_request, check_format_and_decode, check_rendering, content_type_for, error_reply, select_provider, webp_failure_reply,
};
use std::io::Write;

fn encode(source: &str) -> String {
    let mut e = ZlibEncoder::new(Vec::new(), Compression::default());
    e.write_all(source.as_bytes()).unwrap();
    base64::engine::general_purpose::URL_SAFE.encode(e.finish().unwrap())
}

fn registry(with_graphviz: bool) -> DiagramRegistry {
    let caps = Capabilities {
        graphviz: if with_graphviz { Some("/bin/dot".to_string()) } else { None },
        mermaid: None,
        plantuml: None,
        vega: None,
        vegalite: None,
        wavedrom: None,
        bpmn: None,
        d2: Some("/bin/d2".to_string()),
        ditaa: Some("/bin/ditaa".to_string()),
        excalidraw: None,
    };
    DiagramRegistry::new(&caps, &Config::default(), false)
}

#[test]
fn unsupported_format_is_refused_first() {
    let rep = check_format_and_decode("gif", "***").unwrap_err();
    assert_eq!(rep.status, 400);
    assert_eq!(rep.error_kind, "unsupported_format");
    assert_eq!(rep.body, "Unsupported format 'gif'. Supported: svg, png, pdf, webp, txt");
}

#[test]
fn undecodable_payload_is_refused() {
    let rep = check_format_and_decode("svg", "***").unwrap_err();
    assert_eq!(rep.status, 400);
    assert_eq!(rep.error_kind, "decode_error");
    assert_eq!(
        rep.body,
        "Failed to decode source: Base64URL decode failed — input is not valid Base64URL"
    );
}

#[test]
fn decoded_source_is_returned() {
    assert_eq!(check_format_and_decode("png", &encode("a -> b")).unwrap(), "a -> b");
}

#[test]
fn too_large_input() {
    let rep = select_provider("graphviz", "svg", "abcdef", 5, &registry(true)).unwrap_err();
    assert_eq!(rep.status, 413);
    assert_eq!(rep.error_kind, "payload_too_large");
    assert_eq!(rep.body, "Input too large (6 bytes). Maximum allowed: 5 bytes");
}

#[test]
fn unknown_type_lists_known_ones() {
    let rep = select_provider("nomnoml", "svg", "x", 100, &registry(true)).unwrap_err();
    assert_eq!(rep.status, 404);
    assert_eq!(rep.error_kind, "provider_not_found");
    assert_eq!(
        rep.body,
        "Diagram type 'nomnoml' is not available. Supported types: d2, ditaa, dot, graphviz"
    );
}

#[test]
fn no_tools_at_all() {
    let caps = Capabilities {
        graphviz: None,
        mermaid: None,
        plantuml: None,
        vega: None,
        vegalite: None,
        wavedrom: None,
        bpmn: None,
        d2: None,
        ditaa: None,
        excalidraw: None,
    };
    let empty = DiagramRegistry::new(&caps, &Config::default(), false);
    let rep = select_provider("d2", "svg", "x", 100, &empty).unwrap_err();
    assert_eq!(rep.body, "No diagram tools are available on this server");
}

#[test]
fn webp_requests_render_png_for_ditaa() {
    let sel = select_provider("ditaa", "webp", "+--+", 100, &registry(true)).unwrap();
    assert_eq!(sel.base_format, "png");
    assert!(sel.is_webp);
    let sel = select_provider("d2", "webp", "a", 100, &registry(true)).unwrap();
    assert_eq!(sel.base_format, "svg");
    let sel = select_provider("d2", "pdf", "a", 100, &registry(true)).unwrap();
    assert_eq!(sel.base_format, "pdf");
    assert!(!sel.is_webp);
}

#[test]
fn rendering_errors_map_to_statuses() {
    let cases: Vec<(DiagramError, u16, &str, &str)> = vec![
        (DiagramError::ValidationFailed("empty".into()), 400, "empty", "validation_failed"),
        (
            DiagramError::UnsupportedFormat { format: "pdf".into(), provider: "Ditaa".into() },
            400,
            "Format 'pdf' is not supported by provider 'Ditaa'",
            "unsupported_format",
        ),
        (
            DiagramError::ToolNotFound("dot".into()),
            503,
            "Tool not found: 'dot'. Is it installed and in your PATH?",
            "tool_not_found",
        ),
        (
            DiagramError::ExecutionTimeout { tool: "d2".into(), timeout_ms: 3000, bytes: 12 },
            504,
            "'d2' timed out after 3000ms (input: 12 bytes)",
            "timeout",
        ),
        (
            DiagramError::ProcessFailed("boom".into()),
            500,
            "Diagram generation failed. Check server logs for details.",
            "internal_error",
        ),
        (
            DiagramError::Io("disk".into()),
            500,
            "Diagram generation failed. Check server logs for details.",
            "internal_error",
        ),
    ];
    for (e, status, body, kind) in cases {
        let rep = error_reply(&e);
        assert_eq!(rep.status, status);
        assert_eq!(rep.body, body);
        assert_eq!(rep.error_kind, kind);
    }
}

#[test]
fn output_size_limit() {
    assert_eq!(check_rendering(Ok(vec![1, 2, 3]), 3).unwrap(), vec![1, 2, 3]);
    let rep = check_rendering(Ok(vec![0; 4]), 3).unwrap_err();
    assert_eq!(rep.status, 500);
    assert_eq!(rep.error_kind, "output_too_large");
    assert_eq!(
        rep.body,
        "Generated output exceeds size limit (4 bytes). Consider simplifying the diagram."
    );
    let rep = check_rendering(Err(DiagramError::ToolNotFound("d2".into())), 3).unwrap_err();
    assert_eq!(rep.status, 503);
}

#[test]
fn webp_failure() {
    let rep = webp_failure_reply();
    assert_eq!(rep.status, 500);
    assert_eq!(rep.error_kind, "webp_conversion_error");
}

#[test]
fn content_types() {
    assert_eq!(content_type_for("svg"), "image/svg+xml");
    assert_eq!(content_type_for("png"), "image/png");
    assert_eq!(content_type_for("pdf"), "application/pdf");
    assert_eq!(content_type_for("txt"), "text/plain");
    assert_eq!(content_type_for("webp"), "image/webp");
    assert_eq!(content_type_for("bmp"), "application/octet-stream");
}

#[test]
fn admission_checks_in_order() {
    let reg = registry(true);
    let mut cb: Option<CircuitBreakerManager> = None;
    // An undecodable payload is refused before the unknown type is looked up.
    let (len, r) = admit_request("svg", "nomnoml", "***", 100, &reg, &mut cb);
    assert_eq!(len, None);
    assert_eq!(r.unwrap_err().error_kind, "decode_error");
    // An unsupported format is refused before decoding.
    let (_, r) = admit_request("gif", "d2", "***", 100, &reg, &mut cb);
    assert_eq!(r.unwrap_err().error_kind, "unsupported_format");
    // Size before lookup.
    let (len, r) = admit_request("svg", "nomnoml", &encode("abcdef"), 5, &reg, &mut cb);
    assert_eq!(len, Some(6));
    assert_eq!(r.unwrap_err().error_kind, "payload_too_large");
    let (_, r) = admit_request("svg", "nomnoml", &encode("abc"), 5, &reg, &mut cb);
    assert_eq!(r.unwrap_err().error_kind, "provider_not_found");
    let (len, r) = admit_request("webp", "ditaa", &encode("+--+"), 100, &reg, &mut cb);
    assert_eq!(len, Some(4));
    let (source, sel) = r.unwrap();
    assert_eq!(source, "+--+");
    assert_eq!(sel.base_format, "png");
    assert!(cb.is_none());
}

#[test]
fn admission_consults_the_circuit() {
    let reg = registry(true);
    let config = CircuitBreakerConfig { enabled: true, failure_threshold: 1, reset_timeout_secs: 3600 };
    let mut manager = CircuitBreakerManager::new(&config);
    manager.record_failure("d2");
    let mut cb = Some(manager);
    let (_, r) = admit_request("svg", "d2", &encode("a -> b"), 100, &reg, &mut cb);
    let rep = r.unwrap_err();
    assert_eq!(rep.status, 503);
    assert_eq!(rep.error_kind, "circuit_breaker_open");
    let (_, r) = admit_request("svg", "ditaa", &encode("+--+"), 100, &reg, &mut cb);
    assert!(r.is_ok());
    // A refused payload does not touch the circuits.
    let (_, r) = admit_request("svg", "graphviz", "***", 100, &reg, &mut cb);
    assert!(r.is_err());
    assert_eq!(cb.as_ref().unwrap().get_all_states().len(), 2);
}
