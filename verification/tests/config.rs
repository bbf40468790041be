use kroki_rs::config::{
    cache_dir_choice, default_admin_port, default_port, join_path, supported_format_list, Config, ServerConfig,
    ToolConfig,
};
use std::collections::HashMap;

fn env_of(pairs: &[(&str, &str)]) -> impl Fn(&str) -> Option<String> {
    let map: HashMap<String, String> = pairs.iter().map(|(k, v)| (k.to_string(), v.to_string())).collect();
    move |name: &str| map.get(name).cloned()
}

#[test]
fn test_config_env_overrides() {
    let env = env_of(&[
        ("KROKI_PORT", "9999"),
        ("KROKI_ADMIN_PORT", "9998"),
        ("KROKI_TIMEOUT", "12345"),
        ("KROKI_MAX_INPUT_SIZE", "5000"),
        ("KROKI_MERMAID_BIN", "/custom/mmdc"),
    ]);
    let mut config = Config::default();
    config.apply_env_overrides(&env);

    assert_eq!(config.server.port, 9999);
    assert_eq!(config.server.admin_port, 9998);
    assert_eq!(config.server.timeout_ms, 12345);
    assert_eq!(config.server.max_input_size, 5000);
    assert_eq!(config.mermaid.bin_path, Some("/custom/mmdc".to_string()));
}

#[test]
fn defaults() {
    let c = Config::default();
    assert_eq!(c.server.port, 8000);
    assert_eq!(c.server.admin_port, 8081);
    assert_eq!(default_port(), 8000);
    assert_eq!(default_admin_port(), 8081);
    assert_eq!(c.server.timeout_ms, 5000);
    assert_eq!(c.server.max_input_size, 1_048_576);
    assert_eq!(c.server.max_output_size, 52_428_800);
    assert!(!c.server.auth.enabled);
    assert_eq!(c.server.auth.header_name, "x-api-key");
    assert!(!c.server.rate_limit.enabled);
    assert_eq!(c.server.rate_limit.requests_per_second, 10);
    assert_eq!(c.server.rate_limit.burst_size, 50);
    assert!(!c.server.circuit_breaker.enabled);
    assert_eq!(c.server.circuit_breaker.failure_threshold, 5);
    assert_eq!(c.server.circuit_breaker.reset_timeout_secs, 30);
    assert!(c.server.metrics.enabled);
    assert_eq!(c.browser.pool_size, 4);
    assert_eq!(c.browser.context_ttl_requests, 100);
    assert!(c.plugins.is_empty());
    assert!(c.graphviz.bin_path.is_none());
}

#[test]
fn malformed_numbers_are_ignored() {
    let env = env_of(&[
        ("KROKI_PORT", "70000"),
        ("KROKI_TIMEOUT", "soon"),
        ("KROKI_MAX_INPUT_SIZE", "-1"),
        ("KROKI_D2_TIMEOUT", "x"),
    ]);
    let mut config = Config::default();
    config.apply_env_overrides(&env);
    assert_eq!(config.server.port, 8000);
    assert_eq!(config.server.timeout_ms, 5000);
    assert_eq!(config.server.max_input_size, 1_048_576);
    assert_eq!(config.d2.timeout_ms, None);
}

#[test]
fn tool_overrides_use_upper_cased_prefix() {
    let env = env_of(&[
        ("KROKI_VEGALITE_BIN", "/opt/vl2vg"),
        ("KROKI_VEGALITE_TIMEOUT", "750"),
        ("KROKI_VEGALITE_CONFIG", "/etc/vl.json"),
    ]);
    let mut tool = ToolConfig::default();
    tool.apply_env_overrides("vegalite", &env);
    assert_eq!(tool.bin_path.as_deref(), Some("/opt/vl2vg"));
    assert_eq!(tool.timeout_ms, Some(750));
    assert_eq!(tool.config_path.as_deref(), Some("/etc/vl.json"));
}

#[test]
fn server_overrides() {
    let env = env_of(&[("KROKI_MAX_OUTPUT_SIZE", "+42"), ("KROKI_ADMIN_PORT", "65535")]);
    let mut server = ServerConfig::default();
    server.apply_env_overrides(&env);
    assert_eq!(server.max_output_size, 42);
    assert_eq!(server.admin_port, 65535);
    assert_eq!(server.port, 8000);
}

#[test]
fn admin_password_from_environment_is_hashed() {
    let env = env_of(&[("KROKI_ADMIN_PASSWORD", "hunter2")]);
    let mut config = Config::default();
    config.apply_env_overrides(&env);
    let hash = config.server.auth.admin_password_hash.expect("a hash");
    assert!(bcrypt::verify("hunter2", &hash).unwrap());
}

#[test]
fn all_fonts_in_tool_order() {
    let mut c = Config::default();
    c.mermaid.fonts = vec!["m.ttf".to_string()];
    c.graphviz.fonts = vec!["g.ttf".to_string()];
    c.excalidraw.fonts = vec!["e.ttf".to_string()];
    assert_eq!(c.all_fonts(), vec!["g.ttf", "m.ttf", "e.ttf"]);
}

#[test]
fn supported_formats_in_order() {
    assert_eq!(supported_format_list(), vec!["svg", "png", "pdf", "webp", "txt"]);
}

#[test]
fn config_file_precedence() {
    assert_eq!(
        Config::config_path(Some("a.toml".into()), Some("b.toml".into()), true).as_deref(),
        Some("a.toml")
    );
    assert_eq!(Config::config_path(None, Some("b.toml".into()), true).as_deref(), Some("b.toml"));
    assert_eq!(Config::config_path(None, None, true).as_deref(), Some("kroki.toml"));
    assert_eq!(Config::config_path(None, None, false), None);
}

#[test]
fn cache_directory_choice() {
    assert_eq!(cache_dir_choice(Some("/c".into()), Some("/sys".into())).as_deref(), Some("/c"));
    assert_eq!(cache_dir_choice(None, Some("/home/u/.cache".into())).as_deref(), Some("/home/u/.cache/kroki-rs"));
    assert_eq!(cache_dir_choice(None, Some("/home/u/.cache/".into())).as_deref(), Some("/home/u/.cache/kroki-rs"));
    assert_eq!(cache_dir_choice(None, None), None);
    assert_eq!(Config::resolve_cache_dir(Some("/x".into())).as_deref(), Some("/x"));
    assert_eq!(join_path("", "fonts"), "fonts");
    assert_eq!(join_path("a", "b"), "a/b");
}
