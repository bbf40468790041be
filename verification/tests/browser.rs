use kroki_rs::browser::{browser_diagram, render_output, render_script};
use kroki_rs::diagrams::registry::BrowserDiagram;
use kroki_rs::diagrams::DiagramError;

#[test]
fn renderer_per_type() {
    assert_eq!(browser_diagram("mermaid", "svg").unwrap(), BrowserDiagram::Mermaid);
    assert_eq!(browser_diagram("bpmn", "svg").unwrap(), BrowserDiagram::Bpmn);
    match browser_diagram("d2", "png") {
        Err(e @ DiagramError::UnsupportedFormat { .. }) => {
            assert_eq!(e.to_string(), "Format 'png' is not supported by provider 'd2'")
        }
        other => panic!("unexpected {:?}", other),
    }
}

#[test]
fn script_quotes_the_source() {
    assert_eq!(
        render_script(BrowserDiagram::Mermaid, "graph TD\n  A-->\"B\""),
        "window.kroki.renderMermaid(\"graph TD\\n  A-->\\\"B\\\"\")"
    );
    assert_eq!(
        render_script(BrowserDiagram::Bpmn, "a\\b\u{1}\té"),
        "window.kroki.renderBpmn(\"a\\\\b\\u0001\\té\")"
    );
}

#[test]
fn renderer_results() {
    assert_eq!(render_output(Some("<svg/>".into())).unwrap(), b"<svg/>".to_vec());
    match render_output(Some(String::new())) {
        Err(DiagramError::ProcessFailed(m)) => assert_eq!(m, "Render produced empty output"),
        other => panic!("unexpected {:?}", other),
    }
    match render_output(None) {
        Err(DiagramError::ProcessFailed(m)) => assert_eq!(m, "Render returned null or non-string"),
        other => panic!("unexpected {:?}", other),
    }
}
