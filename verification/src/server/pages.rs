//! The varying parts of the discovery page and the admin dashboard: feature
//! status labels, the metrics link and the provider lists.
use vstd::prelude::*;
use crate::config::ServerConfig;
use crate::text::{concat3, decimal, owned, seq_join, spec_decimal, views};

verus! {

/// The label of a feature's status; `off` is the label of a disabled one.
pub open spec fn status_label(enabled: bool, off: Seq<char>) -> Seq<char> {
    if enabled {
        "Enabled"@
    } else {
        off
    }
}

/// Each item wrapped between `open` and `close`, one per line.
pub open spec fn spec_wrapped_lines(items: Seq<Seq<char>>, open: Seq<char>, close: Seq<char>) -> Seq<char> {
    seq_join(items.map_values(|c: Seq<char>| open + c + close), "\n"@)
}

/// Wraps each item between `open` and `close` and puts them on separate lines.
pub fn wrapped_lines(items: &Vec<String>, open: &str, close: &str) -> (r: String)
    ensures
        r@ == spec_wrapped_lines(views(items@), open@, close@),
{
    let mut r = String::new();
    let mut i: usize = 0;
    while i < items.len()
        invariant
            i <= items.len(),
            r@ == spec_wrapped_lines(views(items@).take(i as int), open@, close@),
        decreases items.len() - i,
    {
        let ghost w = views(items@).take(i + 1).map_values(|c: Seq<char>| open@ + c + close@);
        assert(views(items@).take(i + 1).drop_last() =~= views(items@).take(i as int));
        assert(w.drop_last() =~= views(items@).take(i as int).map_values(|c: Seq<char>| open@ + c + close@));
        assert(w.last() == open@ + items@[i as int]@ + close@);
        if i > 0 {
            r.append("\n");
        }
        r.append(open);
        r.append(items[i].as_str());
        r.append(close);
        proof {
            if i == 0 {
                assert(w.len() == 1);
                assert(r@ =~= w[0]);
            } else {
                assert(r@ =~= seq_join(w.drop_last(), "\n"@) + "\n"@ + w.last());
            }
        }
        i = i + 1;
    }
    assert(views(items@).take(items.len() as int) =~= views(items@));
    r
}

/// The varying parts of the discovery page.
pub struct DiscoveryParts {
    /// CSS class and label of the authentication status.
    pub auth: (String, String),
    /// CSS class and label of the rate limiting status.
    pub rate_limit: (String, String),
    /// CSS class and label of the metrics status.
    pub metrics: (String, String),
    /// The list item linking the Prometheus endpoint, or nothing.
    pub metrics_link: String,
    /// The number of registered providers.
    pub provider_count: usize,
    /// One tag per provider.
    pub provider_tags: String,
}

/// The discovery page's CSS class for a feature's status.
pub open spec fn pill_class(enabled: bool) -> Seq<char> {
    if enabled {
        "status-enabled"@
    } else {
        "status-disabled"@
    }
}

fn pill(enabled: bool, off: &str) -> (r: (String, String))
    ensures
        r.0@ == pill_class(enabled),
        r.1@ == status_label(enabled, off@),
{
    if enabled {
        (owned("status-enabled"), owned("Enabled"))
    } else {
        (owned("status-disabled"), owned(off))
    }
}

/// The parts of the discovery page for a server and its registered types.
pub fn discovery_parts(server: &ServerConfig, known: &Vec<String>) -> (p: DiscoveryParts)
    ensures
        p.auth.0@ == pill_class(server.auth.enabled),
        p.auth.1@ == status_label(server.auth.enabled, "Disabled (Dev Mode)"@),
        p.rate_limit.0@ == pill_class(server.rate_limit.enabled),
        p.rate_limit.1@ == status_label(server.rate_limit.enabled, "Disabled"@),
        p.metrics.0@ == pill_class(server.metrics.enabled),
        p.metrics.1@ == status_label(server.metrics.enabled, "Disabled"@),
        p.metrics_link@ == (if server.metrics.enabled && server.metrics.export_endpoint {
            "<li><a href=\"http://localhost:"@ + spec_decimal(server.admin_port as nat)
                + "/metrics\">📊 Prometheus Metrics</a></li>"@
        } else {
            Seq::empty()
        }),
        p.provider_count == known.len(),
        p.provider_tags@ == spec_wrapped_lines(views(known@), "<div class=\"provider-tag\">"@, "</div>"@),
{
    let metrics_link = if server.metrics.enabled && server.metrics.export_endpoint {
        concat3(
            "<li><a href=\"http://localhost:",
            decimal(server.admin_port as u64).as_str(),
            "/metrics\">📊 Prometheus Metrics</a></li>",
        )
    } else {
        String::new()
    };
    DiscoveryParts {
        auth: pill(server.auth.enabled, "Disabled (Dev Mode)"),
        rate_limit: pill(server.rate_limit.enabled, "Disabled"),
        metrics: pill(server.metrics.enabled, "Disabled"),
        metrics_link,
        provider_count: known.len(),
        provider_tags: wrapped_lines(known, "<div class=\"provider-tag\">", "</div>"),
    }
}

/// The varying parts of the admin dashboard.
pub struct DashboardParts {
    /// CSS class and label of the authentication status.
    pub auth: (String, String),
    /// CSS class and label of the rate limiting status.
    pub rate_limit: (String, String),
    /// CSS class and label of the circuit breaker status.
    pub circuit_breaker: (String, String),
    /// The number of registered providers.
    pub provider_count: usize,
    /// One list item per provider.
    pub provider_items: String,
}

/// The dashboard's CSS class for a feature's status.
pub open spec fn value_class(enabled: bool) -> Seq<char> {
    if enabled {
        "enabled"@
    } else {
        "disabled"@
    }
}

fn value(enabled: bool, off: &str) -> (r: (String, String))
    ensures
        r.0@ == value_class(enabled),
        r.1@ == status_label(enabled, off@),
{
    if enabled {
        (owned("enabled"), owned("Enabled"))
    } else {
        (owned("disabled"), owned(off))
    }
}

/// The parts of the admin dashboard for a server and its registered types.
pub fn dashboard_parts(server: &ServerConfig, known: &Vec<String>) -> (p: DashboardParts)
    ensures
        p.auth.0@ == value_class(server.auth.enabled),
        p.auth.1@ == status_label(server.auth.enabled, "Disabled (Dev Mode)"@),
        p.rate_limit.0@ == value_class(server.rate_limit.enabled),
        p.rate_limit.1@ == status_label(server.rate_limit.enabled, "Disabled"@),
        p.circuit_breaker.0@ == value_class(server.circuit_breaker.enabled),
        p.circuit_breaker.1@ == status_label(server.circuit_breaker.enabled, "Disabled"@),
        p.provider_count == known.len(),
        p.provider_items@ == spec_wrapped_lines(views(known@), "<li>✅ "@, "</li>"@),
{
    DashboardParts {
        auth: value(server.auth.enabled, "Disabled (Dev Mode)"),
        rate_limit: value(server.rate_limit.enabled, "Disabled"),
        circuit_breaker: value(server.circuit_breaker.enabled, "Disabled"),
        provider_count: known.len(),
        provider_items: wrapped_lines(known, "<li>✅ ", "</li>"),
    }
}

} // verus!
