use kroki_rs::config::PluginConfig;
use kroki_rs::diagrams::providers::{
    BpmnProvider, CommandProvider, D2Provider, DitaaProvider, ExcalidrawProvider, PluginProvider, ProcessOutput,
    StdinMode, VegaLiteProvider, VegaProvider, WavedromProvider,
};
use kroki_rs::diagrams::{adaptive_timeout, effective_timeout, validate_source, DiagramError, DiagramProvider};

fn ok(stdout: &[u8]) -> ProcessOutput {
    ProcessOutput { success: true, stdout: stdout.to_vec(), stderr: vec![] }
}

fn failed(stderr: &[u8]) -> ProcessOutput {
    ProcessOutput { success: false, stdout: b"out".to_vec(), stderr: stderr.to_vec() }
}

fn process_failed(r: Result<Vec<u8>, DiagramError>) -> String {
    match r {
        Err(DiagramError::ProcessFailed(m)) => m,
        other => panic!("expected ProcessFailed, got {:?}", other),
    }
}

#[test]
fn adaptive_timeouts() {
    assert_eq!(adaptive_timeout(0), 3000);
    assert_eq!(adaptive_timeout(10239), 3000);
    assert_eq!(adaptive_timeout(10240), 4000);
    assert_eq!(adaptive_timeout(10 * 10240), 10000);
    assert_eq!(adaptive_timeout(usize::MAX), 10000);
    assert_eq!(effective_timeout(Some(50_000), 0), 20000);
    assert_eq!(effective_timeout(Some(100), 1 << 30), 100);
    assert_eq!(effective_timeout(None, 20480), 5000);
}

#[test]
fn blank_sources_are_rejected() {
    match validate_source(" \t\n") {
        Err(DiagramError::ValidationFailed(m)) => assert_eq!(m, "Diagram source is empty"),
        other => panic!("unexpected {:?}", other),
    }
    assert!(validate_source(" a ").is_ok());
}

#[test]
fn graphviz_invocation() {
    let p = CommandProvider::new("/bin/dot".into(), Some(1000));
    let inv = p.invocation("digraph{}", "png");
    assert_eq!(inv.program, "/bin/dot");
    assert_eq!(inv.args, vec!["-Tpng"]);
    assert!(matches!(inv.stdin, StdinMode::Piped(ref b) if b == b"digraph{}"));
    assert_eq!(inv.tool, "dot");
    assert_eq!(inv.timeout_ms, Some(1000));
    assert_eq!(inv.source_len, 9);
    assert_eq!(p.finish(ok(b"<svg/>")).unwrap(), b"<svg/>");
    assert_eq!(process_failed(p.finish(ok(b""))), "Command succeeded but returned empty output");
    assert_eq!(process_failed(p.finish(failed(b"syntax error"))), "Command failed: syntax error");
}

#[test]
fn vega_is_svg_only() {
    let p = VegaProvider::new("/bin/vg2svg".into(), None);
    match p.invocation("{}", "png") {
        Err(DiagramError::ProcessFailed(m)) => {
            assert_eq!(m, "Vega support currently limited to SVG format, got 'png'")
        }
        other => panic!("unexpected {:?}", other),
    }
    assert!(p.invocation("{}", "svg").is_ok());
    assert_eq!(process_failed(p.finish(failed(b"bad"))), "Vega conversion failed: bad");
}

#[test]
fn vegalite_two_stages() {
    let p = VegaLiteProvider::new("/bin/vl2vg".into(), "/bin/vg2svg".into(), Some(9));
    assert!(p.first_stage("{}", "png").is_err());
    let first = p.first_stage("{}", "svg").unwrap();
    assert_eq!(first.program, "/bin/vl2vg");
    match p.second_stage(failed(b"oops")) {
        Err(DiagramError::ProcessFailed(m)) => assert_eq!(m, "vl2vg (stage 1) failed: oops"),
        other => panic!("unexpected {:?}", other),
    }
    let second = p.second_stage(ok(b"{\"vega\":1}")).unwrap();
    assert_eq!(second.program, "/bin/vg2svg");
    assert_eq!(second.source_len, 10);
    assert_eq!(
        process_failed(p.finish(10, ok(b""))),
        "vg2svg (stage 2) succeeded but output is empty (vl2vg produced 10 bytes)"
    );
    assert_eq!(
        process_failed(p.finish(10, failed(b"x"))),
        "vg2svg (stage 2) failed (vl2vg produced 10 bytes): x"
    );
}

#[test]
fn d2_formats() {
    let p = D2Provider::new("/bin/d2".into(), None);
    let inv = p.invocation("a -> b", "pdf").unwrap();
    assert_eq!(inv.args, vec!["--layout=dagre", "--stdout-format", "pdf", "-", "-"]);
    match p.invocation("a -> b", "txt") {
        Err(e @ DiagramError::UnsupportedFormat { .. }) => {
            assert_eq!(e.to_string(), "Format 'txt' is not supported by provider 'D2'")
        }
        other => panic!("unexpected {:?}", other),
    }
}

#[test]
fn ditaa_runs_jar_through_java() {
    let p = DitaaProvider::new("/opt/ditaa.jar".into(), None);
    assert!(DitaaProvider::is_jar(Some((b'P', b'K'))));
    assert!(!DitaaProvider::is_jar(Some((b'#', b'!'))));
    assert!(!DitaaProvider::is_jar(None));
    let inv = p.invocation("in.txt", "out.png", true, 3);
    assert_eq!(inv.program, "java");
    assert_eq!(inv.args, vec!["-Djava.awt.headless=true", "-jar", "/opt/ditaa.jar", "in.txt", "out.png"]);
    let inv = p.invocation("in.txt", "out.png", false, 3);
    assert_eq!(inv.program, "/opt/ditaa.jar");
    assert_eq!(inv.args, vec!["in.txt", "out.png"]);
    assert!(p.check_format("png").is_ok());
    assert!(p.check_format("svg").is_err());
    match p.check_run(&ProcessOutput { success: false, stdout: b"o".to_vec(), stderr: b"e".to_vec() }) {
        Err(DiagramError::ProcessFailed(m)) => assert_eq!(m, "Ditaa conversion failed. stderr: e, stdout: o"),
        other => panic!("unexpected {:?}", other),
    }
}

#[test]
fn excalidraw_wavedrom_bpmn() {
    let e = ExcalidrawProvider::new("/bin/excalidraw-to-svg".into(), None);
    assert!(e.check_format("png").is_err());
    assert_eq!(e.invocation("scene.json", 2).args, vec!["scene.json"]);
    let w = WavedromProvider::new("/bin/wavedrom-cli".into(), None);
    assert_eq!(w.invocation("i.json", "o.png", "png", 1).unwrap().args, vec!["-i", "i.json", "-p", "o.png"]);
    assert_eq!(w.invocation("i.json", "o.svg", "svg", 1).unwrap().args, vec!["-i", "i.json", "-s", "o.svg"]);
    assert!(w.invocation("i.json", "o.pdf", "pdf", 1).is_err());
    let b = BpmnProvider::new("/bin/bpmn-to-image".into(), None);
    assert!(b.validate("").is_ok());
    assert_eq!(b.invocation("d.bpmn", "d.png", 1).args, vec!["d.bpmn:d.png"]);
}

#[test]
fn plugin_arguments_are_templated() {
    let config = PluginConfig {
        name: "tikz".into(),
        command: "/bin/tikz".into(),
        args: vec!["--to={format}".into(), "{format}{format}".into(), "-q".into()],
        stdin: false,
        formats: vec![],
        timeout_ms: None,
    };
    let p = PluginProvider::new(&config);
    assert_eq!(p.timeout_ms, 5000);
    let inv = p.invocation("src", "svg");
    assert_eq!(inv.args, vec!["--to=svg", "svgsvg", "-q"]);
    assert!(matches!(inv.stdin, StdinMode::Null));
    assert_eq!(inv.timeout_ms, Some(5000));
    assert_eq!(
        process_failed(p.finish(ok(b""))),
        "Plugin 'tikz' succeeded but returned empty output"
    );
    assert_eq!(process_failed(p.finish(failed(b"nope"))), "Plugin 'tikz' failed: nope");
}

#[test]
fn provider_checks() {
    let d = D2Provider::new("/bin/d2".into(), None);
    assert!(d.validate("a -> b").is_ok());
    match d.validate("\n") {
        Err(DiagramError::ValidationFailed(m)) => assert_eq!(m, "Diagram source is empty"),
        other => panic!("unexpected {:?}", other),
    }
}
