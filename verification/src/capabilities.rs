//! Discovery of the diagram tools installed on the host.
use vstd::prelude::*;
use crate::config::Config;
use crate::text::{concat2, owned};

verus! {

/// One place to look for a tool.
#[derive(Debug, Clone)]
pub enum ToolLookup {
    /// The file at this path, if it exists.
    Path(String),
    /// This name or path resolved against the search path (as `which` does).
    Search(String),
}

impl ToolLookup {
    /// Whether this is a file check (`true`) or a search (`false`), and its text.
    pub open spec fn spec_view(self) -> (bool, Seq<char>) {
        match self {
            ToolLookup::Path(p) => (true, p@),
            ToolLookup::Search(p) => (false, p@),
        }
    }
}

/// The views of a list of lookups.
pub open spec fn lookup_views(v: Seq<ToolLookup>) -> Seq<(bool, Seq<char>)> {
    v.map_values(|l: ToolLookup| l.spec_view())
}

/// Where a tool is looked for, in order: the configured path as a file, then
/// searched; then `node_modules/.bin/<name>`; then `<name>` searched.
pub open spec fn spec_lookups(configured: Option<String>, name: Seq<char>) -> Seq<(bool, Seq<char>)> {
    let local = seq![(true, "node_modules/.bin/"@ + name), (false, name)];
    match configured {
        Some(p) => seq![(true, p@), (false, p@)] + local,
        None => local,
    }
}

/// Holds the paths to discovered diagram generation tools.
#[derive(Debug, Clone)]
pub struct Capabilities {
    pub graphviz: Option<String>,
    pub mermaid: Option<String>,
    pub plantuml: Option<String>,
    /// `vg2svg`
    pub vega: Option<String>,
    /// `vl2vg`
    pub vegalite: Option<String>,
    pub wavedrom: Option<String>,
    pub bpmn: Option<String>,
    pub d2: Option<String>,
    pub ditaa: Option<String>,
    pub excalidraw: Option<String>,
}

/// Whether `resolve`, given lookups that read as `spec`, may have returned `found`.
pub open spec fn resolved<F: Fn(&Vec<ToolLookup>) -> Option<String>>(
    resolve: F,
    spec: Seq<(bool, Seq<char>)>,
    found: Option<String>,
) -> bool {
    exists|ls: Vec<ToolLookup>|
        lookup_views(ls@) == spec && #[trigger] call_ensures(resolve, (&ls,), found)
}

impl Capabilities {
    /// The lookups for a tool, in the order they are tried: the configured path,
    /// as a file and then searched; then the local `node_modules/.bin`; then the
    /// default name searched.
    pub fn find_tool(configured: &Option<String>, default_name: &str) -> (ls: Vec<ToolLookup>)
        ensures
            lookup_views(ls@) == spec_lookups(*configured, default_name@),
    {
        let mut ls: Vec<ToolLookup> = Vec::new();
        match configured {
            Some(p) => {
                ls.push(ToolLookup::Path(p.clone()));
                ls.push(ToolLookup::Search(p.clone()));
            },
            None => {},
        }
        ls.push(ToolLookup::Path(concat2("node_modules/.bin/", default_name)));
        ls.push(ToolLookup::Search(owned(default_name)));
        assert(lookup_views(ls@) =~= spec_lookups(*configured, default_name@));
        ls
    }

    /// Discovers available tools based on configuration: each tool is looked
    /// for as `find_tool` orders, and `resolve` returns the first lookup that
    /// finds it. Mermaid and BPMN render in the browser and only need `node`.
    pub fn discover<F: Fn(&Vec<ToolLookup>) -> Option<String>>(config: &Config, resolve: F) -> (caps: Self)
        requires
            forall|ls: &Vec<ToolLookup>| #[trigger] resolve.requires((ls,)),
        ensures
            resolved(resolve, spec_lookups(config.graphviz.bin_path, "dot"@), caps.graphviz),
            resolved(resolve, spec_lookups(None, "node"@), caps.mermaid),
            resolved(resolve, spec_lookups(config.plantuml.bin_path, "plantuml"@), caps.plantuml),
            resolved(resolve, spec_lookups(config.vega.bin_path, "vg2svg"@), caps.vega),
            resolved(resolve, spec_lookups(config.vegalite.bin_path, "vl2vg"@), caps.vegalite),
            resolved(resolve, spec_lookups(config.wavedrom.bin_path, "wavedrom-cli"@), caps.wavedrom),
            resolved(resolve, spec_lookups(None, "node"@), caps.bpmn),
            resolved(resolve, spec_lookups(config.d2.bin_path, "d2"@), caps.d2),
            resolved(resolve, spec_lookups(config.ditaa.bin_path, "ditaa"@), caps.ditaa),
            resolved(
                resolve,
                spec_lookups(config.excalidraw.bin_path, "excalidraw-to-svg"@),
                caps.excalidraw,
            ),
    {
        let l = Self::find_tool(&config.graphviz.bin_path, "dot");
        let graphviz = resolve(&l);
        assert(call_ensures(resolve, (&l,), graphviz));
        let l = Self::find_tool(&None, "node");
        let mermaid = resolve(&l);
        assert(call_ensures(resolve, (&l,), mermaid));
        let l = Self::find_tool(&config.plantuml.bin_path, "plantuml");
        let plantuml = resolve(&l);
        assert(call_ensures(resolve, (&l,), plantuml));
        let l = Self::find_tool(&config.vega.bin_path, "vg2svg");
        let vega = resolve(&l);
        assert(call_ensures(resolve, (&l,), vega));
        let l = Self::find_tool(&config.vegalite.bin_path, "vl2vg");
        let vegalite = resolve(&l);
        assert(call_ensures(resolve, (&l,), vegalite));
        let l = Self::find_tool(&config.wavedrom.bin_path, "wavedrom-cli");
        let wavedrom = resolve(&l);
        assert(call_ensures(resolve, (&l,), wavedrom));
        let l = Self::find_tool(&None, "node");
        let bpmn = resolve(&l);
        assert(call_ensures(resolve, (&l,), bpmn));
        let l = Self::find_tool(&config.d2.bin_path, "d2");
        let d2 = resolve(&l);
        assert(call_ensures(resolve, (&l,), d2));
        let l = Self::find_tool(&config.ditaa.bin_path, "ditaa");
        let ditaa = resolve(&l);
        assert(call_ensures(resolve, (&l,), ditaa));
        let l = Self::find_tool(&config.excalidraw.bin_path, "excalidraw-to-svg");
        let excalidraw = resolve(&l);
        assert(call_ensures(resolve, (&l,), excalidraw));
        Capabilities {
            graphviz,
            mermaid,
            plantuml,
            vega,
            vegalite,
            wavedrom,
            bpmn,
            d2,
            ditaa,
            excalidraw,
        }
    }
}

} // verus!
