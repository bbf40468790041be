//! The registry of diagram providers, built once from the discovered tools and
//! the configuration.
use vstd::prelude::*;
use crate::capabilities::Capabilities;
use crate::config::{Config, PluginConfig};
use crate::diagrams::providers::{
    CommandProvider, D2Provider, DitaaProvider, ExcalidrawProvider, PluginProvider, VegaLiteProvider,
    VegaProvider, WavedromProvider,
};
use crate::diagrams::{is_empty_source_error, validate_source, DiagramProvider, DiagramResult};
use crate::text::{ascii_lower_seq, clone_strings, is_blank, owned, sorted_unique, str_eq, strictly_sorted, views};
use crate::cli::spec_resolve_base_format;

verus! {

/// Diagram types rendered in the browser.
#[derive(Debug, Clone, Copy, PartialEq, Eq, Structural)]
pub enum BrowserDiagram {
    Mermaid,
    Bpmn,
}

/// A registered provider.
#[derive(Debug, Clone)]
pub enum ProviderSpec {
    /// Graphviz through `dot`.
    Command(CommandProvider),
    /// Rendered by the browser backend.
    Browser { diagram: BrowserDiagram, timeout_ms: Option<u64> },
    Vega(VegaProvider),
    VegaLite(VegaLiteProvider),
    Wavedrom(WavedromProvider),
    D2(D2Provider),
    Ditaa(DitaaProvider),
    Excalidraw(ExcalidrawProvider),
    /// A custom plugin from the configuration.
    Plugin(PluginProvider),
}

/// What a registered provider is, as plain values.
pub enum ProviderKind {
    Command { bin: Seq<char>, timeout_ms: Option<u64> },
    Browser { diagram: BrowserDiagram, timeout_ms: Option<u64> },
    Vega { bin: Seq<char>, timeout_ms: Option<u64> },
    VegaLite { vl_bin: Seq<char>, vg_bin: Seq<char>, timeout_ms: Option<u64> },
    Wavedrom { bin: Seq<char>, timeout_ms: Option<u64> },
    D2 { bin: Seq<char>, timeout_ms: Option<u64> },
    Ditaa { bin: Seq<char>, timeout_ms: Option<u64> },
    Excalidraw { bin: Seq<char>, timeout_ms: Option<u64> },
    Plugin {
        name: Seq<char>,
        command: Seq<char>,
        args: Seq<Seq<char>>,
        stdin: bool,
        timeout_ms: u64,
    },
}

impl ProviderSpec {
    /// What this provider is.
    pub open spec fn kind(self) -> ProviderKind {
        match self {
            ProviderSpec::Command(p) => ProviderKind::Command { bin: p.bin_path@, timeout_ms: p.timeout_ms },
            ProviderSpec::Browser { diagram, timeout_ms } => ProviderKind::Browser { diagram, timeout_ms },
            ProviderSpec::Vega(p) => ProviderKind::Vega { bin: p.bin_path@, timeout_ms: p.timeout_ms },
            ProviderSpec::VegaLite(p) => ProviderKind::VegaLite {
                vl_bin: p.vl_bin_path@,
                vg_bin: p.vg_bin_path@,
                timeout_ms: p.timeout_ms,
            },
            ProviderSpec::Wavedrom(p) => ProviderKind::Wavedrom { bin: p.bin_path@, timeout_ms: p.timeout_ms },
            ProviderSpec::D2(p) => ProviderKind::D2 { bin: p.bin_path@, timeout_ms: p.timeout_ms },
            ProviderSpec::Ditaa(p) => ProviderKind::Ditaa { bin: p.bin_path@, timeout_ms: p.timeout_ms },
            ProviderSpec::Excalidraw(p) => ProviderKind::Excalidraw {
                bin: p.bin_path@,
                timeout_ms: p.timeout_ms,
            },
            ProviderSpec::Plugin(p) => ProviderKind::Plugin {
                name: p.name@,
                command: p.command@,
                args: views(p.args@),
                stdin: p.stdin,
                timeout_ms: p.timeout_ms,
            },
        }
    }
}

impl DiagramProvider for ProviderSpec {
    /// Checks a source before rendering: the BPMN provider accepts any source,
    /// every other provider rejects one that is empty after trimming.
    fn validate(&self, source: &str) -> (r: DiagramResult<()>)
        ensures
            (self.kind() matches ProviderKind::Browser { diagram: BrowserDiagram::Bpmn, .. }) ==> r is Ok,
            !(self.kind() matches ProviderKind::Browser { diagram: BrowserDiagram::Bpmn, .. }) ==> (r is Err
                <==> is_blank(source@)),
            r matches Err(e) ==> is_empty_source_error(e),
    {
        match self {
            ProviderSpec::Browser { diagram: BrowserDiagram::Bpmn, .. } => Ok(()),
            _ => validate_source(source),
        }
    }
}

impl ProviderSpec {
    /// A copy of this provider.
    pub fn duplicate(&self) -> (r: Self)
        ensures
            r.kind() == self.kind(),
    {
        match self {
            ProviderSpec::Command(p) => ProviderSpec::Command(
                CommandProvider::new(p.bin_path.clone(), p.timeout_ms),
            ),
            ProviderSpec::Browser { diagram, timeout_ms } => ProviderSpec::Browser {
                diagram: *diagram,
                timeout_ms: *timeout_ms,
            },
            ProviderSpec::Vega(p) => ProviderSpec::Vega(VegaProvider::new(p.bin_path.clone(), p.timeout_ms)),
            ProviderSpec::VegaLite(p) => ProviderSpec::VegaLite(
                VegaLiteProvider::new(p.vl_bin_path.clone(), p.vg_bin_path.clone(), p.timeout_ms),
            ),
            ProviderSpec::Wavedrom(p) => ProviderSpec::Wavedrom(
                WavedromProvider::new(p.bin_path.clone(), p.timeout_ms),
            ),
            ProviderSpec::D2(p) => ProviderSpec::D2(D2Provider::new(p.bin_path.clone(), p.timeout_ms)),
            ProviderSpec::Ditaa(p) => ProviderSpec::Ditaa(DitaaProvider::new(p.bin_path.clone(), p.timeout_ms)),
            ProviderSpec::Excalidraw(p) => ProviderSpec::Excalidraw(
                ExcalidrawProvider::new(p.bin_path.clone(), p.timeout_ms),
            ),
            ProviderSpec::Plugin(p) => ProviderSpec::Plugin(
                PluginProvider {
                    name: p.name.clone(),
                    command: p.command.clone(),
                    args: clone_strings(&p.args),
                    stdin: p.stdin,
                    timeout_ms: p.timeout_ms,
                },
            ),
        }
    }
}

proof fn lemma_builtin_names_distinct()
    ensures
        "graphviz"@ != "dot"@,
        "mermaid"@ != "graphviz"@ && "mermaid"@ != "dot"@,
        "vega"@ != "graphviz"@ && "vega"@ != "dot"@ && "vega"@ != "mermaid"@,
        "vegalite"@ != "graphviz"@ && "vegalite"@ != "dot"@ && "vegalite"@ != "mermaid"@
            && "vegalite"@ != "vega"@,
        "wavedrom"@ != "graphviz"@ && "wavedrom"@ != "dot"@ && "wavedrom"@ != "mermaid"@
            && "wavedrom"@ != "vega"@ && "wavedrom"@ != "vegalite"@,
        "bpmn"@ != "graphviz"@ && "bpmn"@ != "dot"@ && "bpmn"@ != "mermaid"@ && "bpmn"@ != "vega"@
            && "bpmn"@ != "vegalite"@ && "bpmn"@ != "wavedrom"@,
        "d2"@ != "graphviz"@ && "d2"@ != "dot"@ && "d2"@ != "mermaid"@ && "d2"@ != "vega"@ && "d2"@
            != "vegalite"@ && "d2"@ != "wavedrom"@ && "d2"@ != "bpmn"@,
        "ditaa"@ != "graphviz"@ && "ditaa"@ != "dot"@ && "ditaa"@ != "mermaid"@ && "ditaa"@
            != "vega"@ && "ditaa"@ != "vegalite"@ && "ditaa"@ != "wavedrom"@ && "ditaa"@ != "bpmn"@
            && "ditaa"@ != "d2"@,
        "excalidraw"@ != "graphviz"@ && "excalidraw"@ != "dot"@ && "excalidraw"@ != "mermaid"@
            && "excalidraw"@ != "vega"@ && "excalidraw"@ != "vegalite"@ && "excalidraw"@
            != "wavedrom"@ && "excalidraw"@ != "bpmn"@ && "excalidraw"@ != "d2"@ && "excalidraw"@
            != "ditaa"@,
{
    reveal_strlit("graphviz");
    reveal_strlit("dot");
    reveal_strlit("mermaid");
    reveal_strlit("vega");
    reveal_strlit("vegalite");
    reveal_strlit("wavedrom");
    reveal_strlit("bpmn");
    reveal_strlit("d2");
    reveal_strlit("ditaa");
    reveal_strlit("excalidraw");
    assert("graphviz"@.len() == 8);
    assert("dot"@.len() == 3);
    assert("mermaid"@.len() == 7);
    assert("vega"@.len() == 4);
    assert("vegalite"@.len() == 8);
    assert("wavedrom"@.len() == 8);
    assert("bpmn"@.len() == 4);
    assert("d2"@.len() == 2);
    assert("ditaa"@.len() == 5);
    assert("excalidraw"@.len() == 10);
    assert("graphviz"@[0] != "vegalite"@[0]);
    assert("graphviz"@[0] != "wavedrom"@[0]);
    assert("vegalite"@[0] != "wavedrom"@[0]);
    assert("vega"@[0] != "bpmn"@[0]);
}

/// The provider a plugin configuration describes.
pub open spec fn plugin_kind(p: PluginConfig) -> ProviderKind {
    ProviderKind::Plugin {
        name: p.name@,
        command: p.command@,
        args: views(p.args@),
        stdin: p.stdin,
        timeout_ms: match p.timeout_ms {
            Some(t) => t,
            None => 5000,
        },
    }
}

/// The built-in providers for the tools found: Graphviz under `graphviz` and
/// `dot`; Mermaid and BPMN only with a browser; Vega-Lite only with Vega too.
pub open spec fn builtin_providers(caps: Capabilities, config: Config, browser: bool) -> Map<
    Seq<char>,
    ProviderKind,
> {
    let m0 = Map::<Seq<char>, ProviderKind>::empty();
    let m1 = match caps.graphviz {
        Some(p) => m0.insert(
            "graphviz"@,
            ProviderKind::Command { bin: p@, timeout_ms: config.graphviz.timeout_ms },
        ).insert("dot"@, ProviderKind::Command { bin: p@, timeout_ms: config.graphviz.timeout_ms }),
        None => m0,
    };
    let m2 = if caps.mermaid is Some && browser {
        m1.insert(
            "mermaid"@,
            ProviderKind::Browser { diagram: BrowserDiagram::Mermaid, timeout_ms: config.mermaid.timeout_ms },
        )
    } else {
        m1
    };
    let m3 = match caps.vega {
        Some(p) => m2.insert("vega"@, ProviderKind::Vega { bin: p@, timeout_ms: config.vega.timeout_ms }),
        None => m2,
    };
    let m4 = match (caps.vegalite, caps.vega) {
        (Some(vl), Some(vg)) => m3.insert(
            "vegalite"@,
            ProviderKind::VegaLite { vl_bin: vl@, vg_bin: vg@, timeout_ms: config.vegalite.timeout_ms },
        ),
        _ => m3,
    };
    let m5 = match caps.wavedrom {
        Some(p) => m4.insert(
            "wavedrom"@,
            ProviderKind::Wavedrom { bin: p@, timeout_ms: config.wavedrom.timeout_ms },
        ),
        None => m4,
    };
    let m6 = if caps.bpmn is Some && browser {
        m5.insert(
            "bpmn"@,
            ProviderKind::Browser { diagram: BrowserDiagram::Bpmn, timeout_ms: config.bpmn.timeout_ms },
        )
    } else {
        m5
    };
    let m7 = match caps.d2 {
        Some(p) => m6.insert("d2"@, ProviderKind::D2 { bin: p@, timeout_ms: config.d2.timeout_ms }),
        None => m6,
    };
    let m8 = match caps.ditaa {
        Some(p) => m7.insert("ditaa"@, ProviderKind::Ditaa { bin: p@, timeout_ms: config.ditaa.timeout_ms }),
        None => m7,
    };
    match caps.excalidraw {
        Some(p) => m8.insert(
            "excalidraw"@,
            ProviderKind::Excalidraw { bin: p@, timeout_ms: config.excalidraw.timeout_ms },
        ),
        None => m8,
    }
}

/// Registers the plugins in order; a plugin whose name is already taken, by a
/// built-in provider or an earlier plugin, is skipped.
pub open spec fn register_plugins(m: Map<Seq<char>, ProviderKind>, plugins: Seq<PluginConfig>) -> Map<
    Seq<char>,
    ProviderKind,
>
    decreases plugins.len(),
{
    if plugins.len() == 0 {
        m
    } else {
        let before = register_plugins(m, plugins.drop_last());
        let p = plugins.last();
        if before.contains_key(p.name@) {
            before
        } else {
            before.insert(p.name@, plugin_kind(p))
        }
    }
}

/// The providers registered for the given tools, configuration and browser
/// availability.
pub open spec fn spec_registry(caps: Capabilities, config: Config, browser: bool) -> Map<
    Seq<char>,
    ProviderKind,
> {
    register_plugins(builtin_providers(caps, config, browser), config.plugins@)
}

/// The map that a list of entries with distinct names describes.
pub open spec fn entries_map(s: Seq<(String, ProviderSpec)>) -> Map<Seq<char>, ProviderKind>
    decreases s.len(),
{
    if s.len() == 0 {
        Map::empty()
    } else {
        entries_map(s.drop_last()).insert(s.last().0@, s.last().1.kind())
    }
}

/// No two entries share a name.
pub open spec fn distinct_names(s: Seq<(String, ProviderSpec)>) -> bool {
    forall|i: int, j: int| 0 <= i < j < s.len() ==> #[trigger] s[i].0@ != #[trigger] s[j].0@
}

proof fn lemma_entries_map(s: Seq<(String, ProviderSpec)>)
    requires
        distinct_names(s),
    ensures
        forall|k: Seq<char>|
            entries_map(s).contains_key(k) <==> exists|i: int| 0 <= i < s.len() && #[trigger] s[i].0@ == k,
        forall|i: int| 0 <= i < s.len() ==> entries_map(s)[#[trigger] s[i].0@] == s[i].1.kind(),
    decreases s.len(),
{
    if s.len() > 0 {
        let t = s.drop_last();
        assert(distinct_names(t));
        lemma_entries_map(t);
        assert forall|k: Seq<char>|
            entries_map(s).contains_key(k) <==> exists|i: int| 0 <= i < s.len() && #[trigger] s[i].0@ == k by {
            if entries_map(s).contains_key(k) && k != s.last().0@ {
                let i = choose|i: int| 0 <= i < t.len() && #[trigger] t[i].0@ == k;
                assert(s[i].0@ == k);
            }
            if exists|i: int| 0 <= i < s.len() && #[trigger] s[i].0@ == k {
                let i = choose|i: int| 0 <= i < s.len() && #[trigger] s[i].0@ == k;
                if i < t.len() {
                    assert(t[i].0@ == k);
                }
            }
        }
        assert forall|i: int| 0 <= i < s.len() implies entries_map(s)[#[trigger] s[i].0@] == s[i].1.kind() by {
            if i < t.len() {
                assert(t[i] == s[i]);
                assert(s[i].0@ != s.last().0@);
            }
        }
    }
}

/// The registry of diagram providers, by diagram type name.
pub struct DiagramRegistry {
    providers: Vec<(String, ProviderSpec)>,
}

impl View for DiagramRegistry {
    type V = Map<Seq<char>, ProviderKind>;

    closed spec fn view(&self) -> Map<Seq<char>, ProviderKind> {
        entries_map(self.providers@)
    }
}

impl DiagramRegistry {
    /// No two providers are registered under one name.
    pub closed spec fn wf(&self) -> bool {
        distinct_names(self.providers@)
    }

    fn position(&self, name: &str) -> (r: Option<usize>)
        requires
            self.wf(),
        ensures
            r matches Some(i) ==> i < self.providers@.len() && self.providers@[i as int].0@ == name@,
            r is None ==> forall|i: int| 0 <= i < self.providers@.len() ==> #[trigger] self.providers@[i].0@ != name@,
    {
        let mut i: usize = 0;
        while i < self.providers.len()
            invariant
                i <= self.providers@.len(),
                forall|k: int| 0 <= k < i ==> #[trigger] self.providers@[k].0@ != name@,
            decreases self.providers@.len() - i,
        {
            if str_eq(self.providers[i].0.as_str(), name) {
                return Some(i);
            }
            i = i + 1;
        }
        None
    }

    fn add(&mut self, name: &str, provider: ProviderSpec)
        requires
            old(self).wf(),
            !old(self)@.contains_key(name@),
        ensures
            final(self).wf(),
            final(self)@ == old(self)@.insert(name@, provider.kind()),
    {
        proof {
            lemma_entries_map(self.providers@);
        }
        let ghost before = self.providers@;
        self.providers.push((owned(name), provider));
        proof {
            assert(self.providers@.drop_last() =~= before);
            assert forall|i: int, j: int|
                0 <= i < j < self.providers@.len() implies #[trigger] self.providers@[i].0@
                != #[trigger] self.providers@[j].0@ by {
                if j == before.len() {
                    assert(self.providers@[i] == before[i]);
                } else {
                    assert(self.providers@[i] == before[i]);
                    assert(self.providers@[j] == before[j]);
                }
            }
        }
    }

    /// Builds the registry: the built-in providers for the tools that were
    /// found (browser-rendered ones only when a browser is available), then the
    /// configured plugins, skipping any whose name is already registered.
    pub fn new(capabilities: &Capabilities, config: &Config, browser_available: bool) -> (r: Self)
        ensures
            r.wf(),
            r@ == spec_registry(*capabilities, *config, browser_available),
    {
        let mut reg = DiagramRegistry { providers: Vec::new() };
        proof {
            assert(reg@ =~= Map::<Seq<char>, ProviderKind>::empty());
            lemma_builtin_names_distinct();
        }
        match &capabilities.graphviz {
            Some(path) => {
                reg.add(
                    "graphviz",
                    ProviderSpec::Command(CommandProvider::new(path.clone(), config.graphviz.timeout_ms)),
                );
                reg.add(
                    "dot",
                    ProviderSpec::Command(CommandProvider::new(path.clone(), config.graphviz.timeout_ms)),
                );
            },
            None => {},
        }
        if capabilities.mermaid.is_some() && browser_available {
            reg.add(
                "mermaid",
                ProviderSpec::Browser { diagram: BrowserDiagram::Mermaid, timeout_ms: config.mermaid.timeout_ms },
            );
        }
        match &capabilities.vega {
            Some(path) => {
                reg.add("vega", ProviderSpec::Vega(VegaProvider::new(path.clone(), config.vega.timeout_ms)));
            },
            None => {},
        }
        match (&capabilities.vegalite, &capabilities.vega) {
            (Some(vl), Some(vg)) => {
                reg.add(
                    "vegalite",
                    ProviderSpec::VegaLite(
                        VegaLiteProvider::new(vl.clone(), vg.clone(), config.vegalite.timeout_ms),
                    ),
                );
            },
            _ => {},
        }
        match &capabilities.wavedrom {
            Some(path) => {
                reg.add(
                    "wavedrom",
                    ProviderSpec::Wavedrom(WavedromProvider::new(path.clone(), config.wavedrom.timeout_ms)),
                );
            },
            None => {},
        }
        if capabilities.bpmn.is_some() && browser_available {
            reg.add(
                "bpmn",
                ProviderSpec::Browser { diagram: BrowserDiagram::Bpmn, timeout_ms: config.bpmn.timeout_ms },
            );
        }
        match &capabilities.d2 {
            Some(path) => {
                reg.add("d2", ProviderSpec::D2(D2Provider::new(path.clone(), config.d2.timeout_ms)));
            },
            None => {},
        }
        match &capabilities.ditaa {
            Some(path) => {
                reg.add("ditaa", ProviderSpec::Ditaa(DitaaProvider::new(path.clone(), config.ditaa.timeout_ms)));
            },
            None => {},
        }
        match &capabilities.excalidraw {
            Some(path) => {
                reg.add(
                    "excalidraw",
                    ProviderSpec::Excalidraw(
                        ExcalidrawProvider::new(path.clone(), config.excalidraw.timeout_ms),
                    ),
                );
            },
            None => {},
        }
        assert(reg@ =~= builtin_providers(*capabilities, *config, browser_available));
        let ghost builtins = reg@;
        let mut i: usize = 0;
        while i < config.plugins.len()
            invariant
                i <= config.plugins@.len(),
                reg.wf(),
                reg@ == register_plugins(builtins, config.plugins@.take(i as int)),
            decreases config.plugins@.len() - i,
        {
            let plugin_cfg = &config.plugins[i];
            assert(config.plugins@.take(i + 1).drop_last() =~= config.plugins@.take(i as int));
            assert(config.plugins@.take(i + 1).last() == config.plugins@[i as int]);
            proof {
                lemma_entries_map(reg.providers@);
            }
            match reg.position(plugin_cfg.name.as_str()) {
                Some(_) => {
                    // Plugin collision: the name is already registered.
                },
                None => {
                    let provider = PluginProvider::new(plugin_cfg);
                    assert(views(provider.args@) == views(plugin_cfg.args@));
                    reg.add(plugin_cfg.name.as_str(), ProviderSpec::Plugin(provider));
                },
            }
            i = i + 1;
        }
        assert(config.plugins@.take(config.plugins@.len() as int) =~= config.plugins@);
        reg
    }

    /// Returns the provider for a given diagram type, if available.
    pub fn get(&self, name: &str) -> (r: Option<ProviderSpec>)
        requires
            self.wf(),
        ensures
            r is Some <==> self@.contains_key(name@),
            r matches Some(p) ==> p.kind() == self@[name@],
    {
        proof {
            lemma_entries_map(self.providers@);
        }
        match self.position(name) {
            Some(i) => Some(self.providers[i].1.duplicate()),
            None => None,
        }
    }

    /// Returns the names of all registered diagram types, sorted.
    pub fn known_types(&self) -> (r: Vec<String>)
        requires
            self.wf(),
        ensures
            strictly_sorted(views(r@)),
            forall|k: Seq<char>| views(r@).contains(k) <==> self@.contains_key(k),
    {
        proof {
            lemma_entries_map(self.providers@);
        }
        let mut names: Vec<String> = Vec::new();
        let mut i: usize = 0;
        while i < self.providers.len()
            invariant
                i <= self.providers@.len(),
                names@.len() == i,
                forall|k: int| 0 <= k < i ==> #[trigger] names@[k]@ == self.providers@[k].0@,
            decreases self.providers@.len() - i,
        {
            names.push(self.providers[i].0.clone());
            i = i + 1;
        }
        let r = sorted_unique(&names);
        assert forall|k: Seq<char>| views(names@).contains(k) <==> self@.contains_key(k) by {
            if views(names@).contains(k) {
                let j = choose|j: int| 0 <= j < views(names@).len() && views(names@)[j] == k;
                assert(self.providers@[j].0@ == k);
            }
            if self@.contains_key(k) {
                let j = choose|j: int| 0 <= j < self.providers@.len() && #[trigger] self.providers@[j].0@ == k;
                assert(views(names@)[j] == k);
            }
        }
        r
    }
}


/// Registering plugins never changes a provider that is already registered.
pub proof fn law_registered_providers_kept(
    m: Map<Seq<char>, ProviderKind>,
    plugins: Seq<PluginConfig>,
    k: Seq<char>,
)
    requires
        m.contains_key(k),
    ensures
        register_plugins(m, plugins).contains_key(k),
        register_plugins(m, plugins)[k] == m[k],
    decreases plugins.len(),
{
    if plugins.len() > 0 {
        law_registered_providers_kept(m, plugins.drop_last(), k);
    }
}

/// A diagram type is registered exactly when a built-in provider has that name
/// or some plugin is named so.
pub proof fn law_registry_names(
    m: Map<Seq<char>, ProviderKind>,
    plugins: Seq<PluginConfig>,
    k: Seq<char>,
)
    ensures
        register_plugins(m, plugins).contains_key(k) <==> (m.contains_key(k) || exists|i: int|
            0 <= i < plugins.len() && (#[trigger] plugins[i]).name@ == k),
    decreases plugins.len(),
{
    if plugins.len() > 0 {
        let t = plugins.drop_last();
        law_registry_names(m, t, k);
        if exists|i: int| 0 <= i < plugins.len() && (#[trigger] plugins[i]).name@ == k {
            let i = choose|i: int| 0 <= i < plugins.len() && (#[trigger] plugins[i]).name@ == k;
            if i < t.len() {
                assert(t[i] == plugins[i]);
            }
        }
        if exists|i: int| 0 <= i < t.len() && (#[trigger] t[i]).name@ == k {
            let i = choose|i: int| 0 <= i < t.len() && (#[trigger] t[i]).name@ == k;
            assert(plugins[i] == t[i]);
        }
    }
}

/// The first plugin with a given name is the one registered under it, unless a
/// built-in provider already has that name.
pub proof fn law_first_plugin_wins(
    m: Map<Seq<char>, ProviderKind>,
    plugins: Seq<PluginConfig>,
    i: int,
)
    requires
        0 <= i < plugins.len(),
        !m.contains_key(plugins[i].name@),
        forall|j: int| 0 <= j < i ==> (#[trigger] plugins[j]).name@ != plugins[i].name@,
    ensures
        register_plugins(m, plugins).contains_key(plugins[i].name@),
        register_plugins(m, plugins)[plugins[i].name@] == plugin_kind(plugins[i]),
    decreases plugins.len(),
{
    let t = plugins.drop_last();
    if i < t.len() {
        assert forall|j: int| 0 <= j < i implies (#[trigger] t[j]).name@ != t[i].name@ by {
            assert(t[j] == plugins[j]);
        }
        law_first_plugin_wins(m, t, i);
    } else {
        law_registry_names(m, t, plugins[i].name@);
        if register_plugins(m, t).contains_key(plugins[i].name@) {
            let j = choose|j: int| 0 <= j < t.len() && (#[trigger] t[j]).name@ == plugins[i].name@;
            assert(plugins[j] == t[j]);
        }
    }
}

/// Graphviz is registered under both `graphviz` and `dot`, with one provider,
/// exactly when its tool was found.
pub proof fn law_graphviz_aliases(caps: Capabilities, config: Config, browser: bool)
    ensures
        spec_registry(caps, config, browser).contains_key("graphviz"@) <==> caps.graphviz is Some
            || exists|i: int|
            0 <= i < config.plugins@.len() && (#[trigger] config.plugins@[i]).name@ == "graphviz"@,
        caps.graphviz is Some ==> spec_registry(caps, config, browser)["graphviz"@] == spec_registry(
            caps,
            config,
            browser,
        )["dot"@],
{
    lemma_builtin_names_distinct();
    let b = builtin_providers(caps, config, browser);
    law_registry_names(b, config.plugins@, "graphviz"@);
    if caps.graphviz is Some {
        assert(b.contains_key("graphviz"@));
        assert(b.contains_key("dot"@));
        law_registered_providers_kept(b, config.plugins@, "graphviz"@);
        law_registered_providers_kept(b, config.plugins@, "dot"@);
    }
}

/// Whether some plugin of the list is named `name`.
pub open spec fn plugin_named(plugins: Seq<PluginConfig>, name: Seq<char>) -> bool {
    exists|i: int| 0 <= i < plugins.len() && (#[trigger] plugins[i]).name@ == name
}

/// The names the built-in providers can be registered under.
pub open spec fn is_builtin_name(k: Seq<char>) -> bool {
    k == "graphviz"@ || k == "dot"@ || k == "mermaid"@ || k == "vega"@ || k == "vegalite"@ || k
        == "wavedrom"@ || k == "bpmn"@ || k == "d2"@ || k == "ditaa"@ || k == "excalidraw"@
}

proof fn lemma_builtin_entries(caps: Capabilities, config: Config, browser: bool)
    ensures
        builtin_providers(caps, config, browser).contains_key("graphviz"@) <==> caps.graphviz is Some,
        builtin_providers(caps, config, browser).contains_key("dot"@) <==> caps.graphviz is Some,
        builtin_providers(caps, config, browser).contains_key("mermaid"@) <==> (caps.mermaid is Some
            && browser),
        builtin_providers(caps, config, browser).contains_key("vega"@) <==> caps.vega is Some,
        builtin_providers(caps, config, browser).contains_key("vegalite"@) <==> (caps.vegalite is Some
            && caps.vega is Some),
        builtin_providers(caps, config, browser).contains_key("wavedrom"@) <==> caps.wavedrom is Some,
        builtin_providers(caps, config, browser).contains_key("bpmn"@) <==> (caps.bpmn is Some && browser),
        builtin_providers(caps, config, browser).contains_key("d2"@) <==> caps.d2 is Some,
        builtin_providers(caps, config, browser).contains_key("ditaa"@) <==> caps.ditaa is Some,
        builtin_providers(caps, config, browser).contains_key("excalidraw"@) <==> caps.excalidraw is Some,
        caps.graphviz matches Some(p) ==> builtin_providers(caps, config, browser)["graphviz"@]
            == (ProviderKind::Command { bin: p@, timeout_ms: config.graphviz.timeout_ms })
            && builtin_providers(caps, config, browser)["dot"@] == (ProviderKind::Command {
            bin: p@,
            timeout_ms: config.graphviz.timeout_ms,
        }),
        caps.mermaid is Some && browser ==> builtin_providers(caps, config, browser)["mermaid"@] == (
        ProviderKind::Browser { diagram: BrowserDiagram::Mermaid, timeout_ms: config.mermaid.timeout_ms }),
        caps.vega matches Some(p) ==> builtin_providers(caps, config, browser)["vega"@] == (ProviderKind::Vega {
            bin: p@,
            timeout_ms: config.vega.timeout_ms,
        }),
        caps.vegalite is Some && caps.vega is Some ==> builtin_providers(caps, config, browser)["vegalite"@]
            == (ProviderKind::VegaLite {
            vl_bin: caps.vegalite->0@,
            vg_bin: caps.vega->0@,
            timeout_ms: config.vegalite.timeout_ms,
        }),
        caps.wavedrom matches Some(p) ==> builtin_providers(caps, config, browser)["wavedrom"@] == (
        ProviderKind::Wavedrom { bin: p@, timeout_ms: config.wavedrom.timeout_ms }),
        caps.bpmn is Some && browser ==> builtin_providers(caps, config, browser)["bpmn"@] == (
        ProviderKind::Browser { diagram: BrowserDiagram::Bpmn, timeout_ms: config.bpmn.timeout_ms }),
        caps.d2 matches Some(p) ==> builtin_providers(caps, config, browser)["d2"@] == (ProviderKind::D2 {
            bin: p@,
            timeout_ms: config.d2.timeout_ms,
        }),
        caps.ditaa matches Some(p) ==> builtin_providers(caps, config, browser)["ditaa"@] == (
        ProviderKind::Ditaa { bin: p@, timeout_ms: config.ditaa.timeout_ms }),
        caps.excalidraw matches Some(p) ==> builtin_providers(caps, config, browser)["excalidraw"@] == (
        ProviderKind::Excalidraw { bin: p@, timeout_ms: config.excalidraw.timeout_ms }),
        forall|k: Seq<char>|
            #[trigger] builtin_providers(caps, config, browser).contains_key(k) ==> is_builtin_name(k),
{
    lemma_builtin_names_distinct();
}

/// Each built-in diagram type is registered exactly when its own tool was
/// found (Mermaid and BPMN also need a browser, Vega-Lite needs both its own
/// tool and Vega's), or when a plugin carries its name; a built-in that is
/// registered keeps the provider for its tool, whatever plugins say. PlantUML
/// has no built-in provider.
pub proof fn law_builtin_types_registered(caps: Capabilities, config: Config, browser: bool)
    ensures
        spec_registry(caps, config, browser).contains_key("dot"@) <==> (caps.graphviz is Some || plugin_named(
            config.plugins@,
            "dot"@,
        )),
        spec_registry(caps, config, browser).contains_key("mermaid"@) <==> ((caps.mermaid is Some && browser)
            || plugin_named(config.plugins@, "mermaid"@)),
        spec_registry(caps, config, browser).contains_key("vega"@) <==> (caps.vega is Some || plugin_named(
            config.plugins@,
            "vega"@,
        )),
        spec_registry(caps, config, browser).contains_key("vegalite"@) <==> ((caps.vegalite is Some
            && caps.vega is Some) || plugin_named(config.plugins@, "vegalite"@)),
        spec_registry(caps, config, browser).contains_key("wavedrom"@) <==> (caps.wavedrom is Some
            || plugin_named(config.plugins@, "wavedrom"@)),
        spec_registry(caps, config, browser).contains_key("bpmn"@) <==> ((caps.bpmn is Some && browser)
            || plugin_named(config.plugins@, "bpmn"@)),
        spec_registry(caps, config, browser).contains_key("d2"@) <==> (caps.d2 is Some || plugin_named(
            config.plugins@,
            "d2"@,
        )),
        spec_registry(caps, config, browser).contains_key("ditaa"@) <==> (caps.ditaa is Some || plugin_named(
            config.plugins@,
            "ditaa"@,
        )),
        spec_registry(caps, config, browser).contains_key("excalidraw"@) <==> (caps.excalidraw is Some
            || plugin_named(config.plugins@, "excalidraw"@)),
        spec_registry(caps, config, browser).contains_key("plantuml"@) <==> plugin_named(
            config.plugins@,
            "plantuml"@,
        ),
        caps.vega matches Some(p) ==> spec_registry(caps, config, browser)["vega"@] == (ProviderKind::Vega {
            bin: p@,
            timeout_ms: config.vega.timeout_ms,
        }),
        caps.ditaa matches Some(p) ==> spec_registry(caps, config, browser)["ditaa"@] == (ProviderKind::Ditaa {
            bin: p@,
            timeout_ms: config.ditaa.timeout_ms,
        }),
        caps.d2 matches Some(p) ==> spec_registry(caps, config, browser)["d2"@] == (ProviderKind::D2 {
            bin: p@,
            timeout_ms: config.d2.timeout_ms,
        }),
        caps.wavedrom matches Some(p) ==> spec_registry(caps, config, browser)["wavedrom"@] == (
        ProviderKind::Wavedrom { bin: p@, timeout_ms: config.wavedrom.timeout_ms }),
        caps.excalidraw matches Some(p) ==> spec_registry(caps, config, browser)["excalidraw"@] == (
        ProviderKind::Excalidraw { bin: p@, timeout_ms: config.excalidraw.timeout_ms }),
{
    let b = builtin_providers(caps, config, browser);
    let ps = config.plugins@;
    lemma_builtin_entries(caps, config, browser);
    law_registry_names(b, ps, "dot"@);
    law_registry_names(b, ps, "mermaid"@);
    law_registry_names(b, ps, "vega"@);
    law_registry_names(b, ps, "vegalite"@);
    law_registry_names(b, ps, "wavedrom"@);
    law_registry_names(b, ps, "bpmn"@);
    law_registry_names(b, ps, "d2"@);
    law_registry_names(b, ps, "ditaa"@);
    law_registry_names(b, ps, "excalidraw"@);
    law_registry_names(b, ps, "plantuml"@);
    lemma_plantuml_not_builtin();
    assert(!b.contains_key("plantuml"@));
    if caps.vega is Some {
        law_registered_providers_kept(b, ps, "vega"@);
    }
    if caps.ditaa is Some {
        law_registered_providers_kept(b, ps, "ditaa"@);
    }
    if caps.d2 is Some {
        law_registered_providers_kept(b, ps, "d2"@);
    }
    if caps.wavedrom is Some {
        law_registered_providers_kept(b, ps, "wavedrom"@);
    }
    if caps.excalidraw is Some {
        law_registered_providers_kept(b, ps, "excalidraw"@);
    }
}

proof fn lemma_plantuml_not_builtin()
    ensures
        !is_builtin_name("plantuml"@),
{
    reveal_strlit("plantuml");
    reveal_strlit("graphviz");
    reveal_strlit("dot");
    reveal_strlit("mermaid");
    reveal_strlit("vega");
    reveal_strlit("vegalite");
    reveal_strlit("wavedrom");
    reveal_strlit("bpmn");
    reveal_strlit("d2");
    reveal_strlit("ditaa");
    reveal_strlit("excalidraw");
    assert("plantuml"@[0] != "graphviz"@[0]);
    assert("plantuml"@[0] != "vegalite"@[0]);
    assert("plantuml"@[0] != "wavedrom"@[0]);
    assert("plantuml"@.len() != "dot"@.len());
    assert("plantuml"@.len() != "mermaid"@.len());
    assert("plantuml"@.len() != "vega"@.len());
    assert("plantuml"@.len() != "bpmn"@.len());
    assert("plantuml"@.len() != "d2"@.len());
    assert("plantuml"@.len() != "ditaa"@.len());
    assert("plantuml"@.len() != "excalidraw"@.len());
}

/// Whether a provider takes a request for `format` at all: Vega, Vega-Lite
/// and Excalidraw only SVG, WaveDrom SVG and PNG, D2 SVG, PNG and PDF, ditaa
/// only PNG; Graphviz, the browser renderers and plugins pass any format on
/// to their tool.
pub open spec fn kind_accepts(kind: ProviderKind, format: Seq<char>) -> bool {
    match kind {
        ProviderKind::Vega { .. } => format == "svg"@,
        ProviderKind::VegaLite { .. } => format == "svg"@,
        ProviderKind::Excalidraw { .. } => format == "svg"@,
        ProviderKind::Wavedrom { .. } => format == "svg"@ || format == "png"@,
        ProviderKind::D2 { .. } => format == "svg"@ || format == "png"@ || format == "pdf"@,
        ProviderKind::Ditaa { .. } => format == "png"@,
        _ => true,
    }
}

impl ProviderSpec {
    /// Whether this provider's format check lets a request for `format`
    /// through.
    pub fn accepts_format(&self, format: &str) -> (b: bool)
        ensures
            b == kind_accepts(self.kind(), format@),
    {
        proof {
            reveal_strlit("svg");
            reveal_strlit("png");
            reveal_strlit("pdf");
        }
        match self {
            ProviderSpec::Vega(p) => match p.invocation("", format) {
                Ok(_) => true,
                Err(_) => false,
            },
            ProviderSpec::VegaLite(p) => match p.first_stage("", format) {
                Ok(_) => true,
                Err(_) => false,
            },
            ProviderSpec::Excalidraw(p) => match p.check_format(format) {
                Ok(_) => true,
                Err(_) => false,
            },
            ProviderSpec::Wavedrom(p) => match p.invocation("", "", format, 0) {
                Ok(_) => true,
                Err(_) => false,
            },
            ProviderSpec::D2(p) => match p.invocation("", format) {
                Ok(_) => true,
                Err(_) => false,
            },
            ProviderSpec::Ditaa(p) => match p.check_format(format) {
                Ok(_) => true,
                Err(_) => false,
            },
            _ => true,
        }
    }
}

proof fn lemma_registered_value(m: Map<Seq<char>, ProviderKind>, plugins: Seq<PluginConfig>, k: Seq<char>)
    requires
        register_plugins(m, plugins).contains_key(k),
    ensures
        (m.contains_key(k) && register_plugins(m, plugins)[k] == m[k]) || register_plugins(
            m,
            plugins,
        )[k] is Plugin,
    decreases plugins.len(),
{
    if plugins.len() > 0 {
        let before = register_plugins(m, plugins.drop_last());
        if before.contains_key(k) {
            lemma_registered_value(m, plugins.drop_last(), k);
        }
    }
}

/// A WebP request is rendered in a format its provider takes: for every
/// registered diagram type, the base format chosen for WebP output (PNG for
/// ditaa, SVG for every other type) passes the type's provider's format check.
pub proof fn law_webp_base_format_accepted(
    caps: Capabilities,
    config: Config,
    browser: bool,
    type_: Seq<char>,
    format: Seq<char>,
)
    requires
        ascii_lower_seq(format) == "webp"@,
        spec_registry(caps, config, browser).contains_key(type_),
    ensures
        spec_resolve_base_format(format, type_).1,
        kind_accepts(spec_registry(caps, config, browser)[type_], spec_resolve_base_format(format, type_).0),
{
    let b = builtin_providers(caps, config, browser);
    lemma_builtin_entries(caps, config, browser);
    lemma_registered_value(b, config.plugins@, type_);
    reveal_strlit("ditaa");
    reveal_strlit("vega");
    reveal_strlit("vegalite");
    reveal_strlit("excalidraw");
    assert(ascii_lower_seq("ditaa"@) =~= "ditaa"@);
    assert(ascii_lower_seq(type_).len() == type_.len());
    lemma_builtin_names_distinct();
}

} // verus!
