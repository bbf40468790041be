//! Command-line conversion: format resolution, diagram type inference for
//! batch runs, and the cache key of a rendering.
use vstd::prelude::*;
use crate::text::{
    ascii_lower_seq, chars_of, is_blank, concat2, concat3, decimal, ends_with, eq_ignore_ascii_case, find_last, has_suffix, last_index_of,
    join, lemma_sorted_unique, lemma_strictly_sorted_unique, owned, seq_join, slice_chars, sort_strings, sorted_texts, sorted_unique, spec_decimal, str_eq,
    strictly_sorted, string_from_chars, views,
};
use crate::config::{Config, PluginConfig};
use crate::diagrams::registry::{BrowserDiagram, DiagramRegistry, ProviderKind, ProviderSpec};
use crate::diagrams::{is_empty_source_error, DiagramError, DiagramProvider};
use crate::diagrams::providers::text_bytes;
use vstd::utf8::encode_utf8;
use vstd::string::*;
use crate::trusted::{hex_encode, hex_lower, sha256, sha256_of, to_lowercase, unicode_lower};
use crate::utils::file_extension;

verus! {

broadcast use vstd::string::group_string_axioms;

/// The format a provider is asked for: WebP is produced by converting PNG
/// (for ditaa) or SVG (for everything else); other formats are asked for as
/// they are. The flag tells whether a WebP conversion follows.
pub open spec fn spec_resolve_base_format(format: Seq<char>, type_: Seq<char>) -> (Seq<char>, bool) {
    if ascii_lower_seq(format) == "webp"@ {
        if ascii_lower_seq(type_) == "ditaa"@ {
            ("png"@, true)
        } else {
            ("svg"@, true)
        }
    } else {
        (format, false)
    }
}

/// Resolves WebP format to the appropriate base format for generation.
pub fn resolve_base_format(format: &str, type_: &str) -> (r: (String, bool))
    ensures
        (r.0@, r.1) == spec_resolve_base_format(format@, type_@),
{
    proof {
        reveal_strlit("webp");
        reveal_strlit("ditaa");
        assert(ascii_lower_seq("webp"@) =~= "webp"@);
        assert(ascii_lower_seq("ditaa"@) =~= "ditaa"@);
    }
    if eq_ignore_ascii_case(format, "webp") {
        if eq_ignore_ascii_case(type_, "ditaa") {
            (owned("png"), true)
        } else {
            (owned("svg"), true)
        }
    } else {
        (owned(format), false)
    }
}

/// The last component of a path: the text after its last `/`.
pub open spec fn path_file_name(path: Seq<char>) -> Seq<char> {
    path.skip(last_index_of(path, '/') + 1)
}

/// The diagram type of a batch file, from its lower-cased extension, or from a
/// path ending in `.vl.json`.
pub open spec fn spec_type_for_extension(ext: Seq<char>, path: Seq<char>) -> Option<Seq<char>> {
    if ext == "d2"@ {
        Some("d2"@)
    } else if ext == "dot"@ || ext == "gv"@ {
        Some("graphviz"@)
    } else if ext == "mmd"@ || ext == "mermaid"@ {
        Some("mermaid"@)
    } else if ext == "excalidraw"@ {
        Some("excalidraw"@)
    } else if ext == "bpmn"@ {
        Some("bpmn"@)
    } else if ext == "vega"@ {
        Some("vega"@)
    } else if ext == "vl"@ {
        Some("vegalite"@)
    } else if has_suffix(path, ".vl.json"@) {
        Some("vegalite"@)
    } else {
        None
    }
}

/// The diagram type of a batch file given its lower-cased extension and its
/// path.
pub fn type_for_extension(ext: &str, path: &str) -> (r: Option<String>)
    ensures
        r is Some == spec_type_for_extension(ext@, path@) is Some,
        r matches Some(t) ==> spec_type_for_extension(ext@, path@) == Some(t@),
{
    if str_eq(ext, "d2") {
        Some(owned("d2"))
    } else if str_eq(ext, "dot") || str_eq(ext, "gv") {
        Some(owned("graphviz"))
    } else if str_eq(ext, "mmd") || str_eq(ext, "mermaid") {
        Some(owned("mermaid"))
    } else if str_eq(ext, "excalidraw") {
        Some(owned("excalidraw"))
    } else if str_eq(ext, "bpmn") {
        Some(owned("bpmn"))
    } else if str_eq(ext, "vega") {
        Some(owned("vega"))
    } else if str_eq(ext, "vl") {
        Some(owned("vegalite"))
    } else if ends_with(path, ".vl.json") {
        Some(owned("vegalite"))
    } else {
        None
    }
}

/// The extension of a path's file name, or the empty text when it has none.
pub open spec fn extension_or_empty(path: Seq<char>) -> Seq<char> {
    match file_extension(path_file_name(path)) {
        Some(e) => e,
        None => Seq::empty(),
    }
}

/// The type a batch run gives a file: the override when one was given, else
/// the type inferred from the file's Unicode-lower-cased extension.
pub open spec fn spec_batch_type(path: Seq<char>, type_override: Option<Seq<char>>) -> Option<Seq<char>> {
    match type_override {
        Some(t) => Some(t),
        None => spec_type_for_extension(unicode_lower(extension_or_empty(path)), path),
    }
}

/// The text of an optional string slice.
pub open spec fn opt_text(o: Option<&str>) -> Option<Seq<char>> {
    match o {
        Some(t) => Some(t@),
        None => None,
    }
}

/// The diagram type a batch run gives a file, if any.
pub fn batch_type(path: &str, type_override: Option<&str>) -> (r: Option<String>)
    ensures
        r is Some == spec_batch_type(path@, opt_text(type_override)) is Some,
        r matches Some(t) ==> spec_batch_type(path@, opt_text(type_override)) == Some(t@),
{
    match type_override {
        Some(t) => Some(owned(t)),
        None => {
            let v = chars_of(path);
            let start: usize = match find_last(&v, '/') {
                Some(i) => i + 1,
                None => 0,
            };
            let name = slice_chars(&v, start, v.len());
            assert(name@ =~= path_file_name(path@));
            let mut ext = String::new();
            let name_text = string_from_chars(&name);
            if !str_eq(name_text.as_str(), "..") {
                match find_last(&name, '.') {
                    Some(i) => {
                        if i > 0 {
                            ext = string_from_chars(&slice_chars(&name, i + 1, name.len()));
                        }
                    },
                    None => {},
                }
            }
            assert(ext@ =~= extension_or_empty(path@));
            let lowered = to_lowercase(ext.as_str());
            type_for_extension(lowered.as_str(), path)
        },
    }
}

/// The files of a batch run that get converted, in order, each with its type:
/// the files whose type is known.
pub open spec fn spec_batch_jobs(files: Seq<Seq<char>>, type_override: Option<Seq<char>>) -> Seq<
    (Seq<char>, Seq<char>),
>
    decreases files.len(),
{
    if files.len() == 0 {
        Seq::empty()
    } else {
        let rest = spec_batch_jobs(files.drop_last(), type_override);
        match spec_batch_type(files.last(), type_override) {
            Some(t) => rest.push((files.last(), t)),
            None => rest,
        }
    }
}

/// The texts of a list of (path, type) pairs.
pub open spec fn job_views(jobs: Seq<(String, String)>) -> Seq<(Seq<char>, Seq<char>)> {
    jobs.map_values(|j: (String, String)| (j.0@, j.1@))
}

/// Plans a batch run: each file whose type is known, with that type, in the
/// order of the files; the others are skipped.
pub fn batch_jobs(files: &Vec<String>, type_override: Option<&str>) -> (jobs: Vec<(String, String)>)
    ensures
        job_views(jobs@) == spec_batch_jobs(views(files@), opt_text(type_override)),
{
    let mut jobs: Vec<(String, String)> = Vec::new();
    let mut i: usize = 0;
    while i < files.len()
        invariant
            i <= files.len(),
            job_views(jobs@) == spec_batch_jobs(views(files@).take(i as int), opt_text(type_override)),
        decreases files.len() - i,
    {
        let path = files[i].as_str();
        assert(views(files@).take(i + 1).drop_last() =~= views(files@).take(i as int));
        assert(views(files@).take(i + 1).last() == path@);
        match batch_type(path, type_override) {
            Some(t) => {
                let ghost before = jobs@;
                jobs.push((owned(path), t));
                assert(job_views(jobs@) =~= job_views(before).push((path@, t@)));
            },
            None => {},
        }
        i = i + 1;
    }
    assert(views(files@).take(files.len() as int) =~= views(files@));
    jobs
}

/// The outcome of a batch run from the number of files that failed.
pub fn batch_result(failures: u32) -> (r: Result<(), String>)
    ensures
        failures == 0 ==> r is Ok,
        failures > 0 ==> (r matches Err(m) && m@ == spec_decimal(failures as nat) + " file(s) failed to convert"@),
{
    if failures > 0 {
        Err(concat2(decimal(failures as u64).as_str(), " file(s) failed to convert"))
    } else {
        Ok(())
    }
}

/// The text of a plugin that goes into the cache key: its name, its command,
/// its arguments joined by `,`, its formats joined by `,`, whether the source
/// is piped to stdin, and its timeout (0 when unset), separated by `|`.
pub open spec fn spec_plugin_signature(p: PluginConfig) -> Seq<char> {
    p.name@ + "|"@ + p.command@ + "|"@ + seq_join(views(p.args@), ","@) + "|"@ + seq_join(
        views(p.formats@),
        ","@,
    ) + "|"@ + (if p.stdin {
        "true"@
    } else {
        "false"@
    }) + "|"@ + spec_decimal(
        match p.timeout_ms {
            Some(t) => t as nat,
            None => 0,
        },
    )
}

/// The signature of a plugin's configuration.
pub fn plugin_signature(p: &PluginConfig) -> (s: String)
    ensures
        s@ == spec_plugin_signature(*p),
{
    let mut s = concat3(p.name.as_str(), "|", p.command.as_str());
    s.append("|");
    s.append(join(&p.args, ",").as_str());
    s.append("|");
    s.append(join(&p.formats, ",").as_str());
    s.append("|");
    s.append(if p.stdin { "true" } else { "false" });
    s.append("|");
    let t: u64 = match p.timeout_ms {
        Some(t) => t,
        None => 0,
    };
    s.append(decimal(t).as_str());
    proof {
        reveal_strlit("true");
        reveal_strlit("false");
    }
    s
}

/// The signatures of a list of plugins, in order.
pub open spec fn plugin_signatures(plugins: Seq<PluginConfig>) -> Seq<Seq<char>> {
    plugins.map_values(|p: PluginConfig| spec_plugin_signature(p))
}

/// The UTF-8 bytes of each text followed by a zero byte.
pub open spec fn nul_terminated(items: Seq<Seq<char>>) -> Seq<u8>
    decreases items.len(),
{
    if items.len() == 0 {
        Seq::empty()
    } else {
        nul_terminated(items.drop_last()) + encode_utf8(items.last()) + seq![0u8]
    }
}

/// The bytes hashed for a cache key: the type, the format and the source,
/// then `fonts:` and each font, then `plugins:` and each plugin signature,
/// each font and signature followed by a zero byte.
pub open spec fn cache_material(
    type_: Seq<char>,
    format: Seq<char>,
    source: Seq<char>,
    fonts: Seq<Seq<char>>,
    signatures: Seq<Seq<char>>,
) -> Seq<u8> {
    encode_utf8(type_) + encode_utf8(format) + encode_utf8(source) + encode_utf8("fonts:"@)
        + nul_terminated(fonts) + encode_utf8("plugins:"@) + nul_terminated(signatures)
}

/// The cache key of a rendering: the lower-case hex SHA-256 of its material,
/// taken with the configured fonts sorted and without repeats and the plugin
/// signatures sorted.
pub open spec fn is_cache_key(
    key: Seq<char>,
    type_: Seq<char>,
    format: Seq<char>,
    source: Seq<char>,
    config: Config,
) -> bool {
    exists|fonts: Seq<Seq<char>>, signatures: Seq<Seq<char>>|
        {
            &&& strictly_sorted(fonts)
            &&& forall|f: Seq<char>| fonts.contains(f) <==> views(config.spec_all_fonts()).contains(f)
            &&& sorted_texts(signatures)
            &&& signatures.to_multiset() == plugin_signatures(config.plugins@).to_multiset()
            &&& key == hex_lower(sha256_of(#[trigger] cache_material(type_, format, source, fonts, signatures)))
        }
}

fn append_nul_terminated(material: &mut Vec<u8>, items: &Vec<String>)
    ensures
        final(material)@ == old(material)@ + nul_terminated(views(items@)),
{
    let mut i: usize = 0;
    assert(views(items@).take(0) =~= Seq::<Seq<char>>::empty());
    assert(material@ =~= old(material)@ + nul_terminated(views(items@).take(0)));
    while i < items.len()
        invariant
            i <= items.len(),
            material@ == old(material)@ + nul_terminated(views(items@).take(i as int)),
        decreases items.len() - i,
    {
        let item = items[i].as_str();
        material.append(&mut text_bytes(item));
        material.push(0u8);
        assert(views(items@).take(i + 1).drop_last() =~= views(items@).take(i as int));
        assert(views(items@).take(i + 1).last() == item@);
        assert(material@ =~= old(material)@ + nul_terminated(views(items@).take(i + 1)));
        i = i + 1;
    }
    assert(views(items@).take(items.len() as int) =~= views(items@));
}

/// The cache key of rendering `source` as `type_` in `format` under `config`.
pub fn cache_key(type_: &str, format: &str, source: &str, config: &Config) -> (key: String)
    ensures
        is_cache_key(key@, type_@, format@, source@, *config),
{
    let fonts = sorted_unique(&config.all_fonts());
    let mut raw: Vec<String> = Vec::new();
    let mut i: usize = 0;
    while i < config.plugins.len()
        invariant
            i <= config.plugins.len(),
            views(raw@) == plugin_signatures(config.plugins@.take(i as int)),
        decreases config.plugins.len() - i,
    {
        let sig = plugin_signature(&config.plugins[i]);
        let ghost before = raw@;
        raw.push(sig);
        assert(views(raw@) =~= views(before).push(sig@));
        assert(config.plugins@.take(i + 1) =~= config.plugins@.take(i as int).push(config.plugins@[i as int]));
        assert(plugin_signatures(config.plugins@.take(i + 1)) =~= plugin_signatures(
            config.plugins@.take(i as int),
        ).push(spec_plugin_signature(config.plugins@[i as int])));
        i = i + 1;
    }
    assert(config.plugins@.take(config.plugins.len() as int) =~= config.plugins@);
    let signatures = sort_strings(&raw);
    let mut material = text_bytes(type_);
    material.append(&mut text_bytes(format));
    material.append(&mut text_bytes(source));
    material.append(&mut text_bytes("fonts:"));
    append_nul_terminated(&mut material, &fonts);
    material.append(&mut text_bytes("plugins:"));
    append_nul_terminated(&mut material, &signatures);
    let key = hex_encode(&sha256(&material));
    assert(material@ =~= cache_material(type_@, format@, source@, views(fonts@), views(signatures@)));
    key
}

/// What a command-line rendering needs once the request is accepted.
#[derive(Debug, Clone)]
pub struct GenerationPlan {
    pub provider: ProviderSpec,
    /// The cache key of the rendering.
    pub cache_key: String,
    /// The name of the cached file: the key, a dot and the format.
    pub cache_file: String,
    /// The format the provider renders (PNG or SVG when WebP was asked for).
    pub base_format: String,
    /// Whether the rendering is converted to WebP afterwards.
    pub is_webp: bool,
}

/// Accepts or refuses a command-line rendering. A type with no provider is
/// refused, then a source larger than `server.max_input_size` bytes; an
/// accepted one gets its provider, cache key and cache file name, and the
/// format to render.
pub fn plan_generation(
    source: &str,
    type_: &str,
    format: &str,
    config: &Config,
    registry: &DiagramRegistry,
) -> (r: Result<GenerationPlan, String>)
    requires
        registry.wf(),
    ensures
        !registry@.contains_key(type_@) ==> (r matches Err(m) && m@ == "Diagram type '"@ + type_@
            + "' not supported or tool not found"@),
        registry@.contains_key(type_@) && source.spec_bytes().len() > config.server.max_input_size ==> (r matches Err(m)
            && m@ == "Input too large ("@ + spec_decimal(source.spec_bytes().len()) + " bytes). Maximum allowed: "@
            + spec_decimal(config.server.max_input_size as nat)
            + " bytes. Configure via server.max_input_size in kroki.toml."@),
        registry@.contains_key(type_@) && source.spec_bytes().len() <= config.server.max_input_size ==> (r matches Ok(
            plan,
        ) && plan.provider.kind() == registry@[type_@] && is_cache_key(
            plan.cache_key@,
            type_@,
            format@,
            source@,
            *config,
        ) && plan.cache_file@ == plan.cache_key@ + "."@ + format@ && (plan.base_format@, plan.is_webp)
            == spec_resolve_base_format(format@, type_@)),
{
    let provider = match registry.get(type_) {
        Some(p) => p,
        None => {
            return Err(concat3("Diagram type '", type_, "' not supported or tool not found"));
        },
    };
    let len = source.as_bytes().len();
    let max = config.server.max_input_size;
    if len > max {
        let mut m = concat3("Input too large (", decimal(len as u64).as_str(), " bytes). Maximum allowed: ");
        m.append(decimal(max as u64).as_str());
        m.append(" bytes. Configure via server.max_input_size in kroki.toml.");
        return Err(m);
    }
    let cache_key = cache_key(type_, format, source, config);
    let cache_file = concat3(cache_key.as_str(), ".", format);
    let (base_format, is_webp) = resolve_base_format(format, type_);
    Ok(GenerationPlan { provider, cache_key, cache_file, base_format, is_webp })
}

/// Checks the source of an accepted rendering with its provider's check. A
/// refusal is the error "Source validation failed" with the provider's
/// error as its cause.
pub fn check_source(plan: &GenerationPlan, source: &str) -> (r: Result<(), (String, DiagramError)>)
    ensures
        (plan.provider.kind() matches ProviderKind::Browser { diagram: BrowserDiagram::Bpmn, .. }) ==> r is Ok,
        !(plan.provider.kind() matches ProviderKind::Browser { diagram: BrowserDiagram::Bpmn, .. }) ==> (r is Err
            <==> is_blank(source@)),
        r matches Err((m, cause)) ==> m@ == "Source validation failed"@ && is_empty_source_error(cause),
{
    match plan.provider.validate(source) {
        Ok(()) => Ok(()),
        Err(e) => Err((owned("Source validation failed"), e)),
    }
}

/// The cache key of a rendering depends on the configured fonts only as a set
/// and on the plugins only as a collection: reordering or repeating fonts, or
/// reordering plugins, leaves the key unchanged. In particular a rendering has
/// one key under one configuration.
pub proof fn law_cache_key_ignores_order(
    key1: Seq<char>,
    key2: Seq<char>,
    type_: Seq<char>,
    format: Seq<char>,
    source: Seq<char>,
    config1: Config,
    config2: Config,
)
    requires
        is_cache_key(key1, type_, format, source, config1),
        is_cache_key(key2, type_, format, source, config2),
        forall|f: Seq<char>| views(config1.spec_all_fonts()).contains(f) <==> views(config2.spec_all_fonts()).contains(f),
        plugin_signatures(config1.plugins@).to_multiset() == plugin_signatures(config2.plugins@).to_multiset(),
    ensures
        key1 == key2,
{
    let (f1, s1) = choose|fonts: Seq<Seq<char>>, signatures: Seq<Seq<char>>|
        {
            &&& strictly_sorted(fonts)
            &&& forall|f: Seq<char>| fonts.contains(f) <==> views(config1.spec_all_fonts()).contains(f)
            &&& sorted_texts(signatures)
            &&& signatures.to_multiset() == plugin_signatures(config1.plugins@).to_multiset()
            &&& key1 == hex_lower(sha256_of(#[trigger] cache_material(type_, format, source, fonts, signatures)))
        };
    let (f2, s2) = choose|fonts: Seq<Seq<char>>, signatures: Seq<Seq<char>>|
        {
            &&& strictly_sorted(fonts)
            &&& forall|f: Seq<char>| fonts.contains(f) <==> views(config2.spec_all_fonts()).contains(f)
            &&& sorted_texts(signatures)
            &&& signatures.to_multiset() == plugin_signatures(config2.plugins@).to_multiset()
            &&& key2 == hex_lower(sha256_of(#[trigger] cache_material(type_, format, source, fonts, signatures)))
        };
    lemma_strictly_sorted_unique(f1, f2);
    lemma_sorted_unique(s1, s2);
}

} // verus!
