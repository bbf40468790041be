use kroki_rs::capabilities::{Capabilities, ToolLookup};
use kroki_rs::config::{Config, PluginConfig};
use kroki_rs::diagrams::registry::{BrowserDiagram, DiagramRegistry, ProviderSpec};
use kroki_rs::diagrams::DiagramProvider;

fn tools(all: bool) -> Capabilities {
    let t = |p: &str| if all { Some(p.to_string()) } else { None };
    Capabilities {
        graphviz: t("/bin/dot"),
        mermaid: t("/bin/node"),
        plantuml: t("/bin/plantuml"),
        vega: t("/bin/vg2svg"),
        vegalite: t("/bin/vl2vg"),
        wavedrom: t("/bin/wavedrom-cli"),
        bpmn: t("/bin/node"),
        d2: t("/bin/d2"),
        ditaa: t("/bin/ditaa"),
        excalidraw: t("/bin/excalidraw-to-svg"),
    }
}

fn plugin(name: &str, command: &str) -> PluginConfig {
    PluginConfig {
        name: name.to_string(),
        command: command.to_string(),
        args: vec![],
        stdin: true,
        formats: vec![],
        timeout_ms: None,
    }
}

#[test]
fn empty_registry() {
    let r = DiagramRegistry::new(&tools(false), &Config::default(), true);
    assert!(r.known_types().is_empty());
    assert!(r.get("graphviz").is_none());
}

#[test]
fn all_tools_without_browser() {
    let r = DiagramRegistry::new(&tools(true), &Config::default(), false);
    assert_eq!(
        r.known_types(),
        vec!["d2", "ditaa", "dot", "excalidraw", "graphviz", "vega", "vegalite", "wavedrom"]
    );
}

#[test]
fn all_tools_with_browser() {
    let r = DiagramRegistry::new(&tools(true), &Config::default(), true);
    let known = r.known_types();
    assert!(known.contains(&"mermaid".to_string()));
    assert!(known.contains(&"bpmn".to_string()));
    assert!(!known.contains(&"plantuml".to_string()));
    match r.get("bpmn") {
        Some(ProviderSpec::Browser { diagram, .. }) => assert_eq!(diagram, BrowserDiagram::Bpmn),
        other => panic!("unexpected {:?}", other),
    }
}

#[test]
fn graphviz_alias() {
    let mut config = Config::default();
    config.graphviz.timeout_ms = Some(777);
    let r = DiagramRegistry::new(&tools(true), &config, false);
    for name in ["graphviz", "dot"] {
        match r.get(name) {
            Some(ProviderSpec::Command(p)) => {
                assert_eq!(p.bin_path, "/bin/dot");
                assert_eq!(p.timeout_ms, Some(777));
            }
            other => panic!("unexpected {:?}", other),
        }
    }
}

#[test]
fn vegalite_needs_vega() {
    let mut caps = tools(false);
    caps.vegalite = Some("/bin/vl2vg".to_string());
    let r = DiagramRegistry::new(&caps, &Config::default(), false);
    assert!(r.get("vegalite").is_none());
    caps.vega = Some("/bin/vg2svg".to_string());
    let r = DiagramRegistry::new(&caps, &Config::default(), false);
    match r.get("vegalite") {
        Some(ProviderSpec::VegaLite(p)) => {
            assert_eq!(p.vl_bin_path, "/bin/vl2vg");
            assert_eq!(p.vg_bin_path, "/bin/vg2svg");
        }
        other => panic!("unexpected {:?}", other),
    }
}

#[test]
fn plugins_never_shadow_and_first_wins() {
    let mut config = Config::default();
    config.plugins = vec![
        plugin("graphviz", "/bin/evil"),
        plugin("tikz", "/bin/tikz1"),
        plugin("tikz", "/bin/tikz2"),
    ];
    let r = DiagramRegistry::new(&tools(true), &config, false);
    assert!(matches!(r.get("graphviz"), Some(ProviderSpec::Command(_))));
    match r.get("tikz") {
        Some(ProviderSpec::Plugin(p)) => {
            assert_eq!(p.command, "/bin/tikz1");
            assert_eq!(p.timeout_ms, 5000);
        }
        other => panic!("unexpected {:?}", other),
    }
    assert!(r.known_types().contains(&"tikz".to_string()));
}

#[test]
fn bpmn_validation_accepts_blank() {
    let r = DiagramRegistry::new(&tools(true), &Config::default(), true);
    assert!(r.get("bpmn").unwrap().validate("   ").is_ok());
    assert!(r.get("mermaid").unwrap().validate("   ").is_err());
    assert!(r.get("mermaid").unwrap().validate("graph TD").is_ok());
}

#[test]
fn tool_lookup_order() {
    let found = Capabilities::find_tool(&Some("/opt/dot".to_string()), "dot");
    let shown: Vec<(bool, String)> = found
        .into_iter()
        .map(|l| match l {
            ToolLookup::Path(p) => (true, p),
            ToolLookup::Search(p) => (false, p),
        })
        .collect();
    assert_eq!(
        shown,
        vec![
            (true, "/opt/dot".to_string()),
            (false, "/opt/dot".to_string()),
            (true, "node_modules/.bin/dot".to_string()),
            (false, "dot".to_string())
        ]
    );
    assert_eq!(Capabilities::find_tool(&None, "d2").len(), 2);
}

#[test]
fn discovery_uses_the_resolver() {
    let mut config = Config::default();
    config.d2.bin_path = Some("/custom/d2".to_string());
    let caps = Capabilities::discover(&config, |lookups: &Vec<ToolLookup>| match &lookups[0] {
        ToolLookup::Path(p) if p == "/custom/d2" => Some(p.clone()),
        _ => None,
    });
    assert_eq!(caps.d2.as_deref(), Some("/custom/d2"));
    assert!(caps.graphviz.is_none());
}
