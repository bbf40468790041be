//! Service configuration: the settings tree, its defaults, and the
//! environment overrides applied on top of a loaded file.
use vstd::prelude::*;
use crate::text::{clone_strings, concat3, owned, parse_u16, parse_u64, parse_usize, spec_parse_bounded};
use crate::trusted::{bcrypt_hash, bcrypt_verifies, system_cache_dir, to_uppercase, unicode_upper};

verus! {

/// Main configuration.
#[derive(Debug, Clone)]
pub struct Config {
    pub server: ServerConfig,
    pub browser: BrowserConfig,
    pub artifacts: ArtifactsConfig,
    pub plugins: Vec<PluginConfig>,
    pub graphviz: ToolConfig,
    pub mermaid: ToolConfig,
    pub plantuml: ToolConfig,
    pub vega: ToolConfig,
    pub vegalite: ToolConfig,
    pub wavedrom: ToolConfig,
    pub bpmn: ToolConfig,
    pub d2: ToolConfig,
    pub ditaa: ToolConfig,
    pub excalidraw: ToolConfig,
}

/// A custom diagram tool run as a subprocess.
#[derive(Debug, Clone)]
pub struct PluginConfig {
    pub name: String,
    pub command: String,
    pub args: Vec<String>,
    pub stdin: bool,
    pub formats: Vec<String>,
    pub timeout_ms: Option<u64>,
}

/// Listener and request limits.
#[derive(Debug, Clone)]
pub struct ServerConfig {
    pub port: u16,
    pub admin_port: u16,
    pub timeout_ms: u64,
    /// Maximum allowed input size in bytes (default: 1MB).
    pub max_input_size: usize,
    /// Maximum allowed output size in bytes (default: 50MB).
    pub max_output_size: usize,
    /// Authentication configuration (disabled by default for dev mode).
    pub auth: AuthConfig,
    /// Rate limiting configuration (disabled by default for dev mode).
    pub rate_limit: RateLimitConfig,
    /// Circuit breaker configuration (disabled by default).
    pub circuit_breaker: CircuitBreakerConfig,
    /// Metrics configuration (enabled by default).
    pub metrics: MetricsConfig,
    /// Telemetry/OTel configuration (disabled by default).
    pub telemetry: TelemetryConfig,
}

/// Per-tool settings.
#[derive(Debug, Clone)]
pub struct ToolConfig {
    pub bin_path: Option<String>,
    pub timeout_ms: Option<u64>,
    pub config_path: Option<String>,
    pub fonts: Vec<String>,
}

/// An accepted API key.
#[derive(Debug, Clone)]
pub struct ApiKeyEntry {
    pub key: String,
    pub label: String,
    /// Optional per-key rate limit (requests per second).
    pub rate_limit: Option<u32>,
}

/// Authentication configuration.
/// When `enabled = false` (default), all auth is bypassed (dev mode).
#[derive(Debug, Clone)]
pub struct AuthConfig {
    pub enabled: bool,
    /// List of valid API keys with optional per-key rate limits.
    pub api_keys: Vec<ApiKeyEntry>,
    /// HTTP header name for API key extraction.
    pub header_name: String,
    /// Bcrypt hash of the admin password.
    pub admin_password_hash: Option<String>,
}

/// Token-bucket rate limiting configuration.
/// When `enabled = false` (default), no rate limiting is applied.
#[derive(Debug, Clone, Copy)]
pub struct RateLimitConfig {
    pub enabled: bool,
    /// Maximum sustained requests per second.
    pub requests_per_second: u32,
    /// Maximum burst size above the sustained rate.
    pub burst_size: u32,
}

/// Circuit breaker configuration for per-provider failure isolation.
/// When `enabled = false` (default), circuit breaker is not applied.
#[derive(Debug, Clone, Copy)]
pub struct CircuitBreakerConfig {
    pub enabled: bool,
    /// Number of consecutive failures before the circuit opens.
    pub failure_threshold: u32,
    /// Seconds to wait before transitioning from Open to Half-Open.
    pub reset_timeout_secs: u64,
}

/// Prometheus metrics configuration.
#[derive(Debug, Clone, Copy)]
pub struct MetricsConfig {
    pub enabled: bool,
    /// Whether to expose a /metrics endpoint on the admin server.
    pub export_endpoint: bool,
}

/// Telemetry (OpenTelemetry) configuration.
#[derive(Debug, Clone)]
pub struct TelemetryConfig {
    pub enabled: bool,
    /// OTLP exporter endpoint.
    pub otlp_endpoint: Option<String>,
}

/// Browser pool settings.
#[derive(Debug, Clone, Copy)]
pub struct BrowserConfig {
    pub pool_size: usize,
    /// Number of requests after which a browser context is recreated to prevent memory leaks.
    pub context_ttl_requests: usize,
}

/// Where rendered artifacts are cached.
#[derive(Debug, Clone)]
pub struct ArtifactsConfig {
    pub cache_dir: Option<String>,
}

/// Default listener port.
pub fn default_port() -> (r: u16)
    ensures
        r == 8000,
{
    8000
}

/// Default admin listener port.
pub fn default_admin_port() -> (r: u16)
    ensures
        r == 8081,
{
    8081
}

/// Default request timeout in milliseconds.
pub fn default_timeout() -> (r: u64)
    ensures
        r == 5000,
{
    5000
}

/// Default maximum input size (1 MiB).
pub fn default_max_input_size() -> (r: usize)
    ensures
        r == 1_048_576,
{
    1_048_576
}

/// Default maximum output size (50 MiB).
pub fn default_max_output_size() -> (r: usize)
    ensures
        r == 52_428_800,
{
    52_428_800
}

/// Default API key header.
pub fn default_auth_header() -> (r: String)
    ensures
        r@ == "x-api-key"@,
{
    owned("x-api-key")
}

/// Default sustained request rate.
pub fn default_rps() -> (r: u32)
    ensures
        r == 10,
{
    10
}

/// Default burst size.
pub fn default_burst() -> (r: u32)
    ensures
        r == 50,
{
    50
}

/// Default number of consecutive failures that opens a circuit.
pub fn default_failure_threshold() -> (r: u32)
    ensures
        r == 5,
{
    5
}

/// Default seconds before an open circuit admits a trial request.
pub fn default_reset_timeout() -> (r: u64)
    ensures
        r == 30,
{
    30
}

/// Default browser pool size.
pub fn default_pool_size() -> (r: usize)
    ensures
        r == 4,
{
    4
}

/// Default number of requests served by one browser context.
pub fn default_context_ttl() -> (r: usize)
    ensures
        r == 100,
{
    100
}

/// `true`, the default of flags that are on unless configured off.
pub fn default_true() -> (r: bool)
    ensures
        r,
{
    true
}

/// `false`, the default of flags that are off unless configured on.
pub fn default_false() -> (r: bool)
    ensures
        !r,
{
    false
}

impl Default for ToolConfig {
    fn default() -> (r: Self)
        ensures
            r.bin_path is None,
            r.timeout_ms is None,
            r.config_path is None,
            r.fonts@.len() == 0,
    {
        ToolConfig { bin_path: None, timeout_ms: None, config_path: None, fonts: Vec::new() }
    }
}

impl Default for AuthConfig {
    fn default() -> (r: Self)
        ensures
            !r.enabled,
            r.api_keys@.len() == 0,
            r.header_name@ == "x-api-key"@,
            r.admin_password_hash is None,
    {
        AuthConfig {
            enabled: false,
            api_keys: Vec::new(),
            header_name: owned("x-api-key"),
            admin_password_hash: None,
        }
    }
}

impl Default for RateLimitConfig {
    fn default() -> (r: Self)
        ensures
            !r.enabled,
            r.requests_per_second == 10,
            r.burst_size == 50,
    {
        RateLimitConfig { enabled: false, requests_per_second: 10, burst_size: 50 }
    }
}

impl Default for CircuitBreakerConfig {
    fn default() -> (r: Self)
        ensures
            !r.enabled,
            r.failure_threshold == 5,
            r.reset_timeout_secs == 30,
    {
        CircuitBreakerConfig { enabled: false, failure_threshold: 5, reset_timeout_secs: 30 }
    }
}

impl Default for MetricsConfig {
    fn default() -> (r: Self)
        ensures
            r.enabled,
            r.export_endpoint,
    {
        MetricsConfig { enabled: true, export_endpoint: true }
    }
}

impl Default for TelemetryConfig {
    fn default() -> (r: Self)
        ensures
            !r.enabled,
            r.otlp_endpoint is None,
    {
        TelemetryConfig { enabled: false, otlp_endpoint: None }
    }
}

impl Default for BrowserConfig {
    fn default() -> (r: Self)
        ensures
            r.pool_size == 4,
            r.context_ttl_requests == 100,
    {
        BrowserConfig { pool_size: 4, context_ttl_requests: 100 }
    }
}

impl Default for ArtifactsConfig {
    fn default() -> (r: Self)
        ensures
            r.cache_dir is None,
    {
        ArtifactsConfig { cache_dir: None }
    }
}

impl ServerConfig {
    /// The built-in server settings.
    pub open spec fn is_default(self) -> bool {
        &&& self.port == 8000
        &&& self.admin_port == 8081
        &&& self.timeout_ms == 5000
        &&& self.max_input_size == 1_048_576
        &&& self.max_output_size == 52_428_800
        &&& !self.auth.enabled
        &&& self.auth.api_keys@.len() == 0
        &&& self.auth.header_name@ == "x-api-key"@
        &&& self.auth.admin_password_hash is None
        &&& !self.rate_limit.enabled
        &&& self.rate_limit.requests_per_second == 10
        &&& self.rate_limit.burst_size == 50
        &&& !self.circuit_breaker.enabled
        &&& self.circuit_breaker.failure_threshold == 5
        &&& self.circuit_breaker.reset_timeout_secs == 30
        &&& self.metrics.enabled
        &&& self.metrics.export_endpoint
        &&& !self.telemetry.enabled
        &&& self.telemetry.otlp_endpoint is None
    }
}

impl Default for ServerConfig {
    fn default() -> (r: Self)
        ensures
            r.is_default(),
    {
        ServerConfig {
            port: 8000,
            admin_port: 8081,
            timeout_ms: 5000,
            max_input_size: 1_048_576,
            max_output_size: 52_428_800,
            auth: AuthConfig::default(),
            rate_limit: RateLimitConfig::default(),
            circuit_breaker: CircuitBreakerConfig::default(),
            metrics: MetricsConfig::default(),
            telemetry: TelemetryConfig::default(),
        }
    }
}

impl ToolConfig {
    /// A tool with no settings.
    pub open spec fn is_default(self) -> bool {
        self.bin_path is None && self.timeout_ms is None && self.config_path is None
            && self.fonts@.len() == 0
    }
}

impl Default for Config {
    fn default() -> (r: Self)
        ensures
            r.server.is_default(),
            r.browser.pool_size == 4,
            r.browser.context_ttl_requests == 100,
            r.artifacts.cache_dir is None,
            r.plugins@.len() == 0,
            r.graphviz.is_default(),
            r.mermaid.is_default(),
            r.plantuml.is_default(),
            r.vega.is_default(),
            r.vegalite.is_default(),
            r.wavedrom.is_default(),
            r.bpmn.is_default(),
            r.d2.is_default(),
            r.ditaa.is_default(),
            r.excalidraw.is_default(),
    {
        Config {
            server: ServerConfig::default(),
            browser: BrowserConfig::default(),
            artifacts: ArtifactsConfig::default(),
            plugins: Vec::new(),
            graphviz: ToolConfig::default(),
            mermaid: ToolConfig::default(),
            plantuml: ToolConfig::default(),
            vega: ToolConfig::default(),
            vegalite: ToolConfig::default(),
            wavedrom: ToolConfig::default(),
            bpmn: ToolConfig::default(),
            d2: ToolConfig::default(),
            ditaa: ToolConfig::default(),
            excalidraw: ToolConfig::default(),
        }
    }
}


/// Whether the environment reader `env` may have returned `v` for variable `name`.
pub open spec fn env_read<F: Fn(&str) -> Option<String>>(env: F, name: Seq<char>, v: Option<String>) -> bool {
    exists|n: &str| n@ == name && #[trigger] call_ensures(env, (n,), v)
}

/// A numeric setting after an override: the variable's value when it parses
/// as a number of at most `max`, else the setting as it was.
pub open spec fn parsed_or(v: Option<String>, max: nat, before: int) -> int {
    match v {
        Some(s) => match spec_parse_bounded(s@, max) {
            Some(p) => p as int,
            None => before,
        },
        None => before,
    }
}

/// An optional text setting after an override: the variable's value when set.
pub open spec fn text_or(v: Option<String>, before: Option<String>) -> Option<String> {
    match v {
        Some(s) => Some(s),
        None => before,
    }
}

/// An optional timeout after an override: the variable's value when it parses.
pub open spec fn timeout_or(v: Option<String>, before: Option<u64>) -> Option<u64> {
    match v {
        Some(s) => match spec_parse_bounded(s@, u64::MAX as nat) {
            Some(t) => Some(t as u64),
            None => before,
        },
        None => before,
    }
}

/// Whether `after` is `before` with the overrides that `env` may have given for
/// the tool `prefix`: `KROKI_<PREFIX>_BIN`, `KROKI_<PREFIX>_TIMEOUT` and
/// `KROKI_<PREFIX>_CONFIG`, the prefix upper-cased.
pub open spec fn tool_overridden<F: Fn(&str) -> Option<String>>(
    env: F,
    prefix: Seq<char>,
    before: ToolConfig,
    after: ToolConfig,
) -> bool {
    let up = unicode_upper(prefix);
    &&& exists|v: Option<String>|
        env_read(env, "KROKI_"@ + up + "_BIN"@, v) && #[trigger] text_or(v, before.bin_path) == after.bin_path
    &&& exists|v: Option<String>|
        env_read(env, "KROKI_"@ + up + "_TIMEOUT"@, v) && #[trigger] timeout_or(v, before.timeout_ms)
            == after.timeout_ms
    &&& exists|v: Option<String>|
        env_read(env, "KROKI_"@ + up + "_CONFIG"@, v) && #[trigger] text_or(v, before.config_path)
            == after.config_path
    &&& after.fonts == before.fonts
}

/// Reads an optional timeout override.
fn read_timeout(v: Option<String>, before: Option<u64>) -> (r: Option<u64>)
    ensures
        r == timeout_or(v, before),
{
    match v {
        Some(s) => match parse_u64(s.as_str()) {
            Some(t) => Some(t),
            None => before,
        },
        None => before,
    }
}

impl ToolConfig {
    /// Applies the environment overrides for the tool `prefix`, reading each
    /// variable through `env`: `KROKI_<PREFIX>_BIN` sets the binary,
    /// `KROKI_<PREFIX>_TIMEOUT` the timeout when it parses as a number, and
    /// `KROKI_<PREFIX>_CONFIG` the configuration path.
    pub fn apply_env_overrides<F: Fn(&str) -> Option<String>>(&mut self, prefix: &str, env: &F)
        requires
            forall|n: &str| #[trigger] env.requires((n,)),
        ensures
            tool_overridden(*env, prefix@, *old(self), *final(self)),
    {
        let up = to_uppercase(prefix);
        let name = concat3("KROKI_", up.as_str(), "_BIN");
        let v = env(name.as_str());
        assert(env_read(*env, "KROKI_"@ + unicode_upper(prefix@) + "_BIN"@, v));
        let ghost vb = v;
        let ghost before = self.bin_path;
        match v {
            Some(s) => {
                self.bin_path = Some(s);
            },
            None => {},
        }
        assert(text_or(vb, before) == self.bin_path);
        let name = concat3("KROKI_", up.as_str(), "_TIMEOUT");
        let v = env(name.as_str());
        assert(env_read(*env, "KROKI_"@ + unicode_upper(prefix@) + "_TIMEOUT"@, v));
        let ghost vt = v;
        let ghost before_t = self.timeout_ms;
        self.timeout_ms = read_timeout(v, self.timeout_ms);
        assert(timeout_or(vt, before_t) == self.timeout_ms);
        let name = concat3("KROKI_", up.as_str(), "_CONFIG");
        let v = env(name.as_str());
        assert(env_read(*env, "KROKI_"@ + unicode_upper(prefix@) + "_CONFIG"@, v));
        let ghost vc = v;
        let ghost before_c = self.config_path;
        match v {
            Some(s) => {
                self.config_path = Some(s);
            },
            None => {},
        }
        assert(text_or(vc, before_c) == self.config_path);
    }
}


/// Whether `after` is `before` with the server overrides that `env` may have
/// given: `KROKI_PORT`, `KROKI_ADMIN_PORT`, `KROKI_TIMEOUT`,
/// `KROKI_MAX_INPUT_SIZE` and `KROKI_MAX_OUTPUT_SIZE` when they parse as numbers
/// of their type, and `KROKI_ADMIN_PASSWORD`, whose bcrypt hash becomes the
/// admin password hash (kept as it was if hashing fails).
pub open spec fn server_overridden<F: Fn(&str) -> Option<String>>(
    env: F,
    before: ServerConfig,
    after: ServerConfig,
) -> bool {
    &&& exists|v: Option<String>|
        env_read(env, "KROKI_PORT"@, v) && #[trigger] parsed_or(v, u16::MAX as nat, before.port as int)
            == after.port
    &&& exists|v: Option<String>|
        env_read(env, "KROKI_ADMIN_PORT"@, v) && #[trigger] parsed_or(
            v,
            u16::MAX as nat,
            before.admin_port as int,
        ) == after.admin_port
    &&& exists|v: Option<String>|
        #![trigger env_read(env, "KROKI_ADMIN_PASSWORD"@, v)]
        env_read(env, "KROKI_ADMIN_PASSWORD"@, v) && match v {
            None => after.auth.admin_password_hash == before.auth.admin_password_hash,
            Some(pw) => after.auth.admin_password_hash == before.auth.admin_password_hash || (
            after.auth.admin_password_hash matches Some(h) && bcrypt_verifies(pw@, h@)),
        }
    &&& exists|v: Option<String>|
        env_read(env, "KROKI_TIMEOUT"@, v) && #[trigger] parsed_or(
            v,
            u64::MAX as nat,
            before.timeout_ms as int,
        ) == after.timeout_ms
    &&& exists|v: Option<String>|
        env_read(env, "KROKI_MAX_INPUT_SIZE"@, v) && #[trigger] parsed_or(
            v,
            usize::MAX as nat,
            before.max_input_size as int,
        ) == after.max_input_size
    &&& exists|v: Option<String>|
        env_read(env, "KROKI_MAX_OUTPUT_SIZE"@, v) && #[trigger] parsed_or(
            v,
            usize::MAX as nat,
            before.max_output_size as int,
        ) == after.max_output_size
    &&& after.auth.enabled == before.auth.enabled
    &&& after.auth.api_keys == before.auth.api_keys
    &&& after.auth.header_name == before.auth.header_name
    &&& after.rate_limit == before.rate_limit
    &&& after.circuit_breaker == before.circuit_breaker
    &&& after.metrics == before.metrics
    &&& after.telemetry == before.telemetry
}

impl ServerConfig {
    /// Applies the server environment overrides, reading each variable through
    /// `env` (see `server_overridden`).
    #[verifier::rlimit(30)]
    pub fn apply_env_overrides<F: Fn(&str) -> Option<String>>(&mut self, env: &F)
        requires
            forall|n: &str| #[trigger] env.requires((n,)),
        ensures
            server_overridden(*env, *old(self), *final(self)),
    {
        let ghost before = *self;
        let v = env("KROKI_PORT");
        assert(env_read(*env, "KROKI_PORT"@, v));
        let ghost vp = v;
        match v {
            Some(s) => match parse_u16(s.as_str()) {
                Some(p) => {
                    self.port = p;
                },
                None => {},
            },
            None => {},
        }
        assert(parsed_or(vp, u16::MAX as nat, before.port as int) == self.port);
        let v = env("KROKI_ADMIN_PORT");
        assert(env_read(*env, "KROKI_ADMIN_PORT"@, v));
        let ghost va = v;
        match v {
            Some(s) => match parse_u16(s.as_str()) {
                Some(p) => {
                    self.admin_port = p;
                },
                None => {},
            },
            None => {},
        }
        assert(parsed_or(va, u16::MAX as nat, before.admin_port as int) == self.admin_port);
        let v = env("KROKI_ADMIN_PASSWORD");
        assert(env_read(*env, "KROKI_ADMIN_PASSWORD"@, v));
        match v {
            Some(password) => match bcrypt_hash(password.as_str()) {
                Some(hash) => {
                    self.auth.admin_password_hash = Some(hash);
                },
                None => {},
            },
            None => {},
        }
        let v = env("KROKI_TIMEOUT");
        assert(env_read(*env, "KROKI_TIMEOUT"@, v));
        let ghost vt = v;
        match v {
            Some(s) => match parse_u64(s.as_str()) {
                Some(t) => {
                    self.timeout_ms = t;
                },
                None => {},
            },
            None => {},
        }
        assert(parsed_or(vt, u64::MAX as nat, before.timeout_ms as int) == self.timeout_ms);
        let v = env("KROKI_MAX_INPUT_SIZE");
        assert(env_read(*env, "KROKI_MAX_INPUT_SIZE"@, v));
        let ghost vi = v;
        match v {
            Some(s) => match parse_usize(s.as_str()) {
                Some(n) => {
                    self.max_input_size = n;
                },
                None => {},
            },
            None => {},
        }
        assert(parsed_or(vi, usize::MAX as nat, before.max_input_size as int) == self.max_input_size);
        let v = env("KROKI_MAX_OUTPUT_SIZE");
        assert(env_read(*env, "KROKI_MAX_OUTPUT_SIZE"@, v));
        let ghost vo = v;
        match v {
            Some(s) => match parse_usize(s.as_str()) {
                Some(n) => {
                    self.max_output_size = n;
                },
                None => {},
            },
            None => {},
        }
        assert(parsed_or(vo, usize::MAX as nat, before.max_output_size as int) == self.max_output_size);
    }
}

impl Config {
    /// Applies the environment overrides, reading each variable through `env`:
    /// the server settings (see `server_overridden`), then each tool's
    /// `KROKI_<TOOL>_*` variables (see `ToolConfig::apply_env_overrides`).
    pub fn apply_env_overrides<F: Fn(&str) -> Option<String>>(&mut self, env: &F)
        requires
            forall|n: &str| #[trigger] env.requires((n,)),
        ensures
            server_overridden(*env, old(self).server, final(self).server),
            tool_overridden(*env, "graphviz"@, old(self).graphviz, final(self).graphviz),
            tool_overridden(*env, "mermaid"@, old(self).mermaid, final(self).mermaid),
            tool_overridden(*env, "plantuml"@, old(self).plantuml, final(self).plantuml),
            tool_overridden(*env, "vega"@, old(self).vega, final(self).vega),
            tool_overridden(*env, "vegalite"@, old(self).vegalite, final(self).vegalite),
            tool_overridden(*env, "wavedrom"@, old(self).wavedrom, final(self).wavedrom),
            tool_overridden(*env, "bpmn"@, old(self).bpmn, final(self).bpmn),
            tool_overridden(*env, "d2"@, old(self).d2, final(self).d2),
            tool_overridden(*env, "ditaa"@, old(self).ditaa, final(self).ditaa),
            tool_overridden(*env, "excalidraw"@, old(self).excalidraw, final(self).excalidraw),
            final(self).browser == old(self).browser,
            final(self).artifacts == old(self).artifacts,
            final(self).plugins == old(self).plugins,
    {
        self.server.apply_env_overrides(env);
        self.graphviz.apply_env_overrides("graphviz", env);
        self.mermaid.apply_env_overrides("mermaid", env);
        self.plantuml.apply_env_overrides("plantuml", env);
        self.vega.apply_env_overrides("vega", env);
        self.vegalite.apply_env_overrides("vegalite", env);
        self.wavedrom.apply_env_overrides("wavedrom", env);
        self.bpmn.apply_env_overrides("bpmn", env);
        self.d2.apply_env_overrides("d2", env);
        self.ditaa.apply_env_overrides("ditaa", env);
        self.excalidraw.apply_env_overrides("excalidraw", env);
    }
}


impl Config {
    /// The fonts of all tools, in the order graphviz, mermaid, plantuml, vega,
    /// vegalite, wavedrom, bpmn, d2, ditaa, excalidraw.
    pub open spec fn spec_all_fonts(&self) -> Seq<String> {
        self.graphviz.fonts@ + self.mermaid.fonts@ + self.plantuml.fonts@ + self.vega.fonts@
            + self.vegalite.fonts@ + self.wavedrom.fonts@ + self.bpmn.fonts@ + self.d2.fonts@
            + self.ditaa.fonts@ + self.excalidraw.fonts@
    }

    /// Aggregates font information from all configured tools.
    pub fn all_fonts(&self) -> (fonts: Vec<String>)
        ensures
            fonts@ == self.spec_all_fonts(),
    {
        let mut fonts: Vec<String> = Vec::new();
        fonts.append(&mut clone_strings(&self.graphviz.fonts));
        fonts.append(&mut clone_strings(&self.mermaid.fonts));
        fonts.append(&mut clone_strings(&self.plantuml.fonts));
        fonts.append(&mut clone_strings(&self.vega.fonts));
        fonts.append(&mut clone_strings(&self.vegalite.fonts));
        fonts.append(&mut clone_strings(&self.wavedrom.fonts));
        fonts.append(&mut clone_strings(&self.bpmn.fonts));
        fonts.append(&mut clone_strings(&self.d2.fonts));
        fonts.append(&mut clone_strings(&self.ditaa.fonts));
        fonts.append(&mut clone_strings(&self.excalidraw.fonts));
        assert(fonts@ =~= self.spec_all_fonts());
        fonts
    }
}

/// Supported output formats.
pub open spec fn supported_formats() -> Seq<Seq<char>> {
    seq!["svg"@, "png"@, "pdf"@, "webp"@, "txt"@]
}

/// Supported output formats, in order.
pub fn supported_format_list() -> (v: Vec<String>)
    ensures
        crate::text::views(v@) == supported_formats(),
{
    let mut v: Vec<String> = Vec::new();
    v.push(owned("svg"));
    v.push(owned("png"));
    v.push(owned("pdf"));
    v.push(owned("webp"));
    v.push(owned("txt"));
    assert(crate::text::views(v@) =~= supported_formats());
    v
}

/// `PathBuf::push` of a relative component onto a path: the component alone
/// onto an empty path, else joined with a `/` unless the path already ends in one.
pub open spec fn path_join(base: Seq<char>, component: Seq<char>) -> Seq<char> {
    if base.len() == 0 {
        component
    } else if base.last() == '/' {
        base + component
    } else {
        base + "/"@ + component
    }
}

/// Joins a relative component onto a path.
pub fn join_path(base: &str, component: &str) -> (r: String)
    ensures
        r@ == path_join(base@, component@),
{
    let v = crate::text::chars_of(base);
    if v.len() == 0 {
        owned(component)
    } else if v[v.len() - 1] == '/' {
        crate::text::concat2(base, component)
    } else {
        concat3(base, "/", component)
    }
}

/// The cache directory: the one given, else `kroki-rs` under the system cache
/// directory when there is one.
pub open spec fn spec_cache_dir_choice(custom: Option<Seq<char>>, system: Option<Seq<char>>) -> Option<Seq<char>> {
    match custom {
        Some(c) => Some(c),
        None => match system {
            Some(s) => Some(path_join(s, "kroki-rs"@)),
            None => None,
        },
    }
}

/// The text of an optional string.
pub open spec fn opt_view(o: Option<String>) -> Option<Seq<char>> {
    match o {
        Some(s) => Some(s@),
        None => None,
    }
}

/// Chooses the cache directory from the one given and the system cache
/// directory.
pub fn cache_dir_choice(custom: Option<String>, system: Option<String>) -> (r: Option<String>)
    ensures
        opt_view(r) == spec_cache_dir_choice(opt_view(custom), opt_view(system)),
{
    match custom {
        Some(c) => Some(c),
        None => match system {
            Some(s) => Some(join_path(s.as_str(), "kroki-rs")),
            None => None,
        },
    }
}

impl Config {
    /// Resolves the cache directory: the one given, else `kroki-rs` under the
    /// user's cache directory, which is looked up only when none was given.
    /// Creating the directory is left to the caller.
    pub fn resolve_cache_dir(custom_path: Option<String>) -> (r: Option<String>)
        ensures
            custom_path is Some ==> r == custom_path,
            custom_path is None ==> exists|system: Option<Seq<char>>|
                opt_view(r) == #[trigger] spec_cache_dir_choice(None, system),
    {
        match custom_path {
            Some(c) => Some(c),
            None => {
                let system = system_cache_dir();
                let r = cache_dir_choice(None, system);
                assert(opt_view(r) == spec_cache_dir_choice(None, opt_view(system)));
                r
            },
        }
    }
}

impl Config {
    /// The configuration file to load: the path given, else the value of
    /// `KROKI_CONFIG` when it is set, else `kroki.toml` when that file exists,
    /// else none (the defaults are used).
    pub fn config_path(given: Option<String>, env_value: Option<String>, local_file_exists: bool) -> (r:
        Option<String>)
        ensures
            given is Some ==> r == given,
            given is None && env_value is Some ==> r == env_value,
            given is None && env_value is None ==> (if local_file_exists {
                r matches Some(p) && p@ == "kroki.toml"@
            } else {
                r is None
            }),
    {
        match given {
            Some(p) => Some(p),
            None => match env_value {
                Some(p) => Some(p),
                None => if local_file_exists {
                    Some(owned("kroki.toml"))
                } else {
                    None
                },
            },
        }
    }
}

impl Config {
    /// Adds fonts given on the command line to the Mermaid, Graphviz and
    /// Excalidraw tools, after the fonts they already have; nothing else changes.
    pub fn add_fonts(&mut self, fonts: &Vec<String>)
        ensures
            final(self).mermaid.fonts@ == old(self).mermaid.fonts@ + fonts@,
            final(self).graphviz.fonts@ == old(self).graphviz.fonts@ + fonts@,
            final(self).excalidraw.fonts@ == old(self).excalidraw.fonts@ + fonts@,
            *final(self) == (Config {
                mermaid: ToolConfig { fonts: final(self).mermaid.fonts, ..old(self).mermaid },
                graphviz: ToolConfig { fonts: final(self).graphviz.fonts, ..old(self).graphviz },
                excalidraw: ToolConfig { fonts: final(self).excalidraw.fonts, ..old(self).excalidraw },
                ..*old(self)
            }),
    {
        self.mermaid.fonts.append(&mut clone_strings(fonts));
        self.graphviz.fonts.append(&mut clone_strings(fonts));
        self.excalidraw.fonts.append(&mut clone_strings(fonts));
    }
}

} // verus!
