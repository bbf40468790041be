use kroki_rs::capabilities::Capabilities;
use kroki_rs::cli::{
    batch_jobs, batch_result, batch_type, cache_key, check_source, plan_generation, plugin_signature,
    resolve_base_format, type_for_extension,
};
use kroki_rs::config::{Config, PluginConfig};
use kroki_rs::diagrams::registry::DiagramRegistry;
use sha2::Digest;

fn no_tools() -> Capabilities {
    Capabilities {
        graphviz: None,
        mermaid: None,
        plantuml: None,
        vega: None,
        vegalite: None,
        wavedrom: None,
        bpmn: None,
        d2: None,
        ditaa: None,
        excalidraw: None,
    }
}

fn plugin(name: &str, timeout: Option<u64>) -> PluginConfig {
    PluginConfig {
        name: name.to_string(),
        command: "render.sh".to_string(),
        args: vec!["-f".to_string(), "{format}".to_string()],
        stdin: true,
        formats: vec!["svg".to_string(), "png".to_string()],
        timeout_ms: timeout,
    }
}

#[test]
fn webp_resolution() {
    assert_eq!(resolve_base_format("webp", "ditaa"), ("png".to_string(), true));
    assert_eq!(resolve_base_format("WebP", "DITAA"), ("png".to_string(), true));
    assert_eq!(resolve_base_format("webp", "graphviz"), ("svg".to_string(), true));
    assert_eq!(resolve_base_format("svg", "ditaa"), ("svg".to_string(), false));
}

#[test]
fn batch_types_from_extensions() {
    assert_eq!(batch_type("in/a.d2", None).as_deref(), Some("d2"));
    assert_eq!(batch_type("in/a.DOT", None).as_deref(), Some("graphviz"));
    assert_eq!(batch_type("in/a.gv", None).as_deref(), Some("graphviz"));
    assert_eq!(batch_type("in/a.mmd", None).as_deref(), Some("mermaid"));
    assert_eq!(batch_type("in/a.mermaid", None).as_deref(), Some("mermaid"));
    assert_eq!(batch_type("in/a.excalidraw", None).as_deref(), Some("excalidraw"));
    assert_eq!(batch_type("in/a.bpmn", None).as_deref(), Some("bpmn"));
    assert_eq!(batch_type("in/a.vega", None).as_deref(), Some("vega"));
    assert_eq!(batch_type("in/a.vl", None).as_deref(), Some("vegalite"));
    assert_eq!(batch_type("in/chart.vl.json", None).as_deref(), Some("vegalite"));
    assert_eq!(batch_type("in/chart.json", None), None);
    assert_eq!(batch_type("in/README", None), None);
    assert_eq!(batch_type("in/.d2", None), None);
    assert_eq!(batch_type("in.d2/notes", None), None);
    assert_eq!(batch_type("in/anything.txt", Some("plantuml")).as_deref(), Some("plantuml"));
    assert_eq!(type_for_extension("gv", "x"), Some("graphviz".to_string()));
    assert_eq!(type_for_extension("", "x.vl.json"), Some("vegalite".to_string()));
}

#[test]
fn batch_plan_keeps_order_and_skips_unknown() {
    let files = vec![
        "d/b.dot".to_string(),
        "d/skip.md".to_string(),
        "d/a.d2".to_string(),
    ];
    let jobs = batch_jobs(&files, None);
    assert_eq!(
        jobs,
        vec![
            ("d/b.dot".to_string(), "graphviz".to_string()),
            ("d/a.d2".to_string(), "d2".to_string())
        ]
    );
    let all = batch_jobs(&files, Some("d2"));
    assert_eq!(all.len(), 3);
}

#[test]
fn batch_outcome() {
    assert!(batch_result(0).is_ok());
    assert_eq!(batch_result(3).unwrap_err(), "3 file(s) failed to convert");
}

#[test]
fn plugin_signature_text() {
    assert_eq!(
        plugin_signature(&plugin("tikz", Some(2500))),
        "tikz|render.sh|-f,{format}|svg,png|true|2500"
    );
    let mut p = plugin("x", None);
    p.stdin = false;
    p.args.clear();
    assert_eq!(plugin_signature(&p), "x|render.sh||svg,png|false|0");
}

fn expected_key(type_: &str, format: &str, source: &str, fonts: &[&str], sigs: &[&str]) -> String {
    let mut h = sha2::Sha256::new();
    h.update(type_);
    h.update(format);
    h.update(source);
    h.update(b"fonts:");
    for f in fonts {
        h.update(f.as_bytes());
        h.update([0]);
    }
    h.update(b"plugins:");
    for s in sigs {
        h.update(s.as_bytes());
        h.update([0]);
    }
    hex::encode(h.finalize())
}

#[test]
fn cache_key_matches_hash_of_material() {
    let mut c = Config::default();
    c.graphviz.fonts = vec!["b.ttf".to_string(), "a.ttf".to_string()];
    c.d2.fonts = vec!["b.ttf".to_string()];
    c.plugins = vec![plugin("zeta", None), plugin("alpha", Some(1))];
    let key = cache_key("graphviz", "svg", "digraph{}", &c);
    let expected = expected_key(
        "graphviz",
        "svg",
        "digraph{}",
        &["a.ttf", "b.ttf"],
        &["alpha|render.sh|-f,{format}|svg,png|true|1", "zeta|render.sh|-f,{format}|svg,png|true|0"],
    );
    assert_eq!(key, expected);
    assert_eq!(key.len(), 64);
}

#[test]
fn cache_key_ignores_font_and_plugin_order() {
    let mut c1 = Config::default();
    c1.mermaid.fonts = vec!["x.ttf".to_string(), "y.ttf".to_string()];
    c1.plugins = vec![plugin("p", None), plugin("q", None)];
    let mut c2 = Config::default();
    c2.vega.fonts = vec!["y.ttf".to_string(), "x.ttf".to_string(), "y.ttf".to_string()];
    c2.plugins = vec![plugin("q", None), plugin("p", None)];
    assert_eq!(cache_key("d2", "png", "a -> b", &c1), cache_key("d2", "png", "a -> b", &c2));
    assert_ne!(cache_key("d2", "png", "a -> b", &c1), cache_key("d2", "svg", "a -> b", &c1));
}

#[test]
fn plan_refuses_unknown_type_then_large_input() {
    let mut caps = no_tools();
    caps.graphviz = Some("/usr/bin/dot".to_string());
    let mut config = Config::default();
    config.server.max_input_size = 4;
    let registry = DiagramRegistry::new(&caps, &config, false);
    assert_eq!(
        plan_generation("abc", "nomnoml", "svg", &config, &registry).unwrap_err(),
        "Diagram type 'nomnoml' not supported or tool not found"
    );
    assert_eq!(
        plan_generation("abcdef", "graphviz", "svg", &config, &registry).unwrap_err(),
        "Input too large (6 bytes). Maximum allowed: 4 bytes. Configure via server.max_input_size in kroki.toml."
    );
    assert_eq!(
        plan_generation("abcdef", "nomnoml", "svg", &config, &registry).unwrap_err(),
        "Diagram type 'nomnoml' not supported or tool not found"
    );
}

#[test]
fn plan_for_accepted_rendering() {
    let mut caps = no_tools();
    caps.ditaa = Some("/usr/bin/ditaa".to_string());
    let config = Config::default();
    let registry = DiagramRegistry::new(&caps, &config, false);
    let plan = plan_generation("+--+", "ditaa", "webp", &config, &registry).unwrap();
    assert_eq!(plan.base_format, "png");
    assert!(plan.is_webp);
    assert_eq!(plan.cache_key, cache_key("ditaa", "webp", "+--+", &config));
    assert_eq!(plan.cache_file, format!("{}.webp", plan.cache_key));
    assert!(check_source(&plan, "+--+").is_ok());
    let (message, cause) = check_source(&plan, " \n\t").unwrap_err();
    assert_eq!(message, "Source validation failed");
    assert_eq!(cause.to_string(), "Validation failed: Diagram source is empty");
}
