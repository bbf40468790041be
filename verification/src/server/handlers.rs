//! The decisions of the diagram endpoint `/{type}/{format}/{source}`: which
//! requests are refused and how, which provider renders, how a rendering's
//! outcome is answered, and what the circuit breaker learns from it.
use vstd::prelude::*;
use crate::cli::{resolve_base_format, spec_resolve_base_format};
use crate::config::supported_formats;
use crate::diagrams::registry::{DiagramRegistry, ProviderSpec};
use crate::diagrams::DiagramError;
use crate::server::circuit_breaker::CircuitBreakerManager;
use crate::text::{
    concat2, concat3, decimal, join, owned, seq_join, spec_decimal, str_eq, strictly_sorted, views,
};
use crate::utils::{decode, spec_decode};
use vstd::string::*;
use vstd::utf8::encode_utf8;

verus! {

broadcast use vstd::string::group_string_axioms;

/// An answer to a request that did not produce an image.
#[derive(Debug, Clone)]
pub struct Reply {
    /// The HTTP status.
    pub status: u16,
    /// The plain-text body.
    pub body: String,
    /// The error label recorded in the metrics.
    pub error_kind: String,
}

/// A reply with a status, a text body and a metrics label.
pub open spec fn is_reply(r: Reply, status: u16, body: Seq<char>, kind: Seq<char>) -> bool {
    r.status == status && r.body@ == body && r.error_kind@ == kind
}

/// The message listing the supported formats.
pub open spec fn unsupported_format_message(format: Seq<char>) -> Seq<char> {
    "Unsupported format '"@ + format + "'. Supported: svg, png, pdf, webp, txt"@
}

/// Checks the format against the supported ones and decodes the payload.
/// Refuses an unsupported format (400, `unsupported_format`) or a payload that
/// does not decode (400, `decode_error`); otherwise returns the source.
pub fn check_format_and_decode(format: &str, source_encoded: &str) -> (r: Result<String, Reply>)
    ensures
        !supported_formats().contains(format@) ==> (r matches Err(rep) && is_reply(
            rep,
            400,
            unsupported_format_message(format@),
            "unsupported_format"@,
        )),
        supported_formats().contains(format@) ==> match spec_decode(source_encoded@) {
            Ok(t) => r matches Ok(s) && s@ == t,
            Err(m) => r matches Err(rep) && is_reply(
                rep,
                400,
                "Failed to decode source: "@ + m,
                "decode_error"@,
            ),
        },
{
    proof {
        reveal_strlit("svg");
        reveal_strlit("png");
        reveal_strlit("pdf");
        reveal_strlit("webp");
        reveal_strlit("txt");
    }
    let supported = str_eq(format, "svg") || str_eq(format, "png") || str_eq(format, "pdf")
        || str_eq(format, "webp") || str_eq(format, "txt");
    proof {
        let f = supported_formats();
        if f.contains(format@) {
            let i = choose|i: int| 0 <= i < f.len() && f[i] == format@;
            assert(i == 0 || i == 1 || i == 2 || i == 3 || i == 4);
        }
        if supported {
            if format@ == "svg"@ { assert(f[0] == format@); }
            if format@ == "png"@ { assert(f[1] == format@); }
            if format@ == "pdf"@ { assert(f[2] == format@); }
            if format@ == "webp"@ { assert(f[3] == format@); }
            if format@ == "txt"@ { assert(f[4] == format@); }
        }
    }
    if !supported {
        return Err(
            Reply {
                status: 400,
                body: concat3("Unsupported format '", format, "'. Supported: svg, png, pdf, webp, txt"),
                error_kind: owned("unsupported_format"),
            },
        );
    }
    match decode(source_encoded) {
        Ok(s) => Ok(s),
        Err(e) => Err(
            Reply {
                status: 400,
                body: concat2("Failed to decode source: ", e.to_string().as_str()),
                error_kind: owned("decode_error"),
            },
        ),
    }
}


/// The message for a diagram type that has no provider.
pub open spec fn not_available_message(type_: Seq<char>, known: Seq<Seq<char>>) -> Seq<char> {
    if known.len() == 0 {
        "No diagram tools are available on this server"@
    } else {
        "Diagram type '"@ + type_ + "' is not available. Supported types: "@ + seq_join(known, ", "@)
    }
}

/// The provider chosen for a request and the format it is asked for.
#[derive(Debug, Clone)]
pub struct Selected {
    pub provider: ProviderSpec,
    /// The format the provider renders (PNG or SVG when WebP was requested).
    pub base_format: String,
    /// Whether the rendering is converted to WebP afterwards.
    pub is_webp: bool,
}

/// What `select_provider` answers for a decoded source: a source larger than
/// `max_input_size` bytes is refused (413), then a type with no provider (404,
/// listing the sorted known types); otherwise the type's provider and the
/// format it renders.
pub open spec fn spec_selection(
    r: Result<Selected, Reply>,
    type_: Seq<char>,
    format: Seq<char>,
    source: Seq<char>,
    max_input_size: usize,
    registry: DiagramRegistry,
) -> bool {
    let len = encode_utf8(source).len();
    &&& len > max_input_size ==> (r matches Err(rep) && is_reply(
        rep,
        413,
        "Input too large ("@ + spec_decimal(len) + " bytes). Maximum allowed: "@ + spec_decimal(
            max_input_size as nat,
        ) + " bytes"@,
        "payload_too_large"@,
    ))
    &&& len <= max_input_size && !registry@.contains_key(type_) ==> (r matches Err(rep) && rep.status == 404
        && rep.error_kind@ == "provider_not_found"@ && exists|known: Seq<Seq<char>>|
        strictly_sorted(known) && (forall|k: Seq<char>| known.contains(k) <==> registry@.contains_key(k))
            && rep.body@ == #[trigger] not_available_message(type_, known))
    &&& len <= max_input_size && registry@.contains_key(type_) ==> (r matches Ok(sel) && sel.provider.kind()
        == registry@[type_] && (sel.base_format@, sel.is_webp) == spec_resolve_base_format(format, type_))
}

/// Checks the decoded source's size and finds the provider. Refuses a source
/// larger than `max_input_size` bytes (413, `payload_too_large`) and a type
/// with no provider (404, `provider_not_found`, listing the sorted known types).
pub fn select_provider(
    type_: &str,
    format: &str,
    source: &str,
    max_input_size: usize,
    registry: &DiagramRegistry,
) -> (r: Result<Selected, Reply>)
    requires
        registry.wf(),
    ensures
        spec_selection(r, type_@, format@, source@, max_input_size, *registry),
{
    let len = source.as_bytes().len();
    if len > max_input_size {
        let mut body = concat3("Input too large (", decimal(len as u64).as_str(), " bytes). Maximum allowed: ");
        body.append(decimal(max_input_size as u64).as_str());
        body.append(" bytes");
        return Err(Reply { status: 413, body, error_kind: owned("payload_too_large") });
    }
    match registry.get(type_) {
        Some(provider) => {
            let (base_format, is_webp) = resolve_base_format(format, type_);
            Ok(Selected { provider, base_format, is_webp })
        },
        None => {
            let known = registry.known_types();
            let body = if known.len() == 0 {
                owned("No diagram tools are available on this server")
            } else {
                let mut b = concat3("Diagram type '", type_, "' is not available. Supported types: ");
                b.append(join(&known, ", ").as_str());
                b
            };
            assert(body@ == not_available_message(type_@, views(known@)));
            Err(Reply { status: 404, body, error_kind: owned("provider_not_found") })
        },
    }
}

/// What `circuit_gate` does: the provider's circuit (a fresh one for a new
/// provider) takes the step `allow_outcome` gives for some elapsed time, only
/// that circuit changes, and a rejected request is answered 503.
pub open spec fn spec_gate(
    before: CircuitBreakerManager,
    after: CircuitBreakerManager,
    type_: Seq<char>,
    r: Result<(), Reply>,
) -> bool {
    &&& after.settings() == before.settings()
    &&& exists|e: u64|
        {
            let (c, b) = #[trigger] before.circuit_or_fresh(type_).allow_outcome(e);
            &&& after.table() == before.table().insert(type_, c)
            &&& (r is Ok) == b
        }
    &&& r matches Err(rep) ==> is_reply(
        rep,
        503,
        "Provider '"@ + type_ + "' is temporarily unavailable due to repeated failures. Please retry later."@,
        "circuit_breaker_open"@,
    )
}

/// Lets the request through the provider's circuit, or refuses it (503,
/// `circuit_breaker_open`) when the circuit rejects it.
pub fn circuit_gate(cb: &mut CircuitBreakerManager, type_: &str) -> (r: Result<(), Reply>)
    ensures
        spec_gate(*old(cb), *final(cb), type_@, r),
{
    if cb.should_allow(type_) {
        Ok(())
    } else {
        Err(
            Reply {
                status: 503,
                body: concat3(
                    "Provider '",
                    type_,
                    "' is temporarily unavailable due to repeated failures. Please retry later.",
                ),
                error_kind: owned("circuit_breaker_open"),
            },
        )
    }
}

/// How a request whose source decoded to `t` ends, given what the provider
/// selection gave: a refused selection answers it, leaving the circuits as they
/// were; an accepted one is admitted when there is no circuit breaker, and
/// otherwise when the provider's circuit lets it through: `gate` is what the
/// circuit answered (see `spec_gate`).
pub open spec fn spec_admitted(
    r: Result<(String, Selected), Reply>,
    sel: Result<Selected, Reply>,
    t: Seq<char>,
    type_: Seq<char>,
    before: Option<CircuitBreakerManager>,
    after: Option<CircuitBreakerManager>,
    gate: Result<(), Reply>,
) -> bool {
    match sel {
        Err(rep) => r == Err::<(String, Selected), Reply>(rep) && after == before,
        Ok(chosen) => match before {
            None => after is None && (r matches Ok((src, s)) && src@ == t && s == chosen),
            Some(m) => after matches Some(m2) && spec_gate(m, m2, type_, gate) && match gate {
                Err(rep) => r == Err::<(String, Selected), Reply>(rep),
                Ok(()) => r matches Ok((src, s)) && src@ == t && s == chosen,
            },
        },
    }
}

/// The checks a diagram request passes before it is rendered, in order: the
/// format, the payload's decoding, its size, the provider lookup and, when a
/// circuit breaker is present, the provider's circuit. The first check that
/// fails answers the request and no later check runs. Also returns the decoded
/// source's size in bytes when decoding succeeded.
pub fn admit_request(
    format: &str,
    type_: &str,
    source_encoded: &str,
    max_input_size: usize,
    registry: &DiagramRegistry,
    cb: &mut Option<CircuitBreakerManager>,
) -> (r: (Option<usize>, Result<(String, Selected), Reply>))
    requires
        registry.wf(),
    ensures
        !supported_formats().contains(format@) ==> (r.1 matches Err(rep) && is_reply(
            rep,
            400,
            unsupported_format_message(format@),
            "unsupported_format"@,
        ) && r.0 is None && *final(cb) == *old(cb)),
        supported_formats().contains(format@) ==> match spec_decode(source_encoded@) {
            Err(m) => (r.1 matches Err(rep) && is_reply(
                rep,
                400,
                "Failed to decode source: "@ + m,
                "decode_error"@,
            ) && r.0 is None && *final(cb) == *old(cb)),
            Ok(t) => r.0 == Some(encode_utf8(t).len() as usize) && exists|
                sel: Result<Selected, Reply>,
                gate: Result<(), Reply>,
            |
                #![trigger spec_selection(sel, type_@, format@, t, max_input_size, *registry), spec_admitted(r.1, sel, t, type_@, *old(cb), *final(cb), gate)]
                spec_selection(sel, type_@, format@, t, max_input_size, *registry) && spec_admitted(
                    r.1,
                    sel,
                    t,
                    type_@,
                    *old(cb),
                    *final(cb),
                    gate,
                ),
        },
{
    let source = match check_format_and_decode(format, source_encoded) {
        Ok(s) => s,
        Err(rep) => return (None, Err(rep)),
    };
    let len = source.as_str().as_bytes().len();
    assert(len == encode_utf8(source@).len());
    let sel = select_provider(type_, format, source.as_str(), max_input_size, registry);
    let chosen = match sel {
        Ok(c) => c,
        Err(rep) => {
            assert(spec_selection(Err(rep), type_@, format@, source@, max_input_size, *registry));
            assert(spec_admitted(Err(rep), Err::<Selected, Reply>(rep), source@, type_@, *old(cb), *old(cb), Ok(())));
            return (Some(len), Err(rep));
        },
    };
    assert(spec_selection(Ok(chosen), type_@, format@, source@, max_input_size, *registry));
    let ghost ch = chosen;
    let ghost t = source@;
    assert(spec_decode(source_encoded@) == Ok::<Seq<char>, Seq<char>>(t));
    if cb.is_some() {
        let mut m = cb.take().unwrap();
        let ghost m0 = m;
        let g = circuit_gate(&mut m, type_);
        *cb = Some(m);
        let r = match g {
            Ok(()) => (Some(len), Ok((source, chosen))),
            Err(rep) => (Some(len), Err(rep)),
        };
        proof {
            assert(*old(cb) == Some(m0));
            assert(*final(cb) == Some(m));
            assert(spec_selection(Ok::<Selected, Reply>(ch), type_@, format@, t, max_input_size, *registry));
            assert(spec_admitted(r.1, Ok::<Selected, Reply>(ch), t, type_@, *old(cb), *final(cb), g));
        }
        r
    } else {
        let r = (Some(len), Ok((source, chosen)));
        proof {
            assert(spec_selection(Ok::<Selected, Reply>(ch), type_@, format@, t, max_input_size, *registry));
            assert(spec_admitted(r.1, Ok::<Selected, Reply>(ch), t, type_@, *old(cb), *final(cb), Ok(())));
        }
        r
    }
}

/// Tells the provider's circuit how the rendering went: a produced image is a
/// success (whatever its size), an error a failure.
pub fn settle_circuit(cb: &mut CircuitBreakerManager, type_: &str, result: &Result<Vec<u8>, DiagramError>)
    ensures
        final(cb).settings() == old(cb).settings(),
        result is Ok && old(cb).table().contains_key(type_@) ==> final(cb).table() == old(cb).table().insert(
            type_@,
            old(cb).table()[type_@].after_success(),
        ),
        result is Ok && !old(cb).table().contains_key(type_@) ==> final(cb).table() == old(cb).table(),
        result is Err ==> final(cb).table().contains_key(type_@) && final(cb).table()[type_@].last_failure_time is Some
            && final(cb).table() == old(cb).table().insert(
            type_@,
            old(cb).circuit_or_fresh(type_@).after_failure(final(cb).table()[type_@].last_failure_time->0),
        ),
{
    match result {
        Ok(_) => cb.record_success(type_),
        Err(_) => cb.record_failure(type_),
    }
}

/// The metrics label of a rendering error.
pub open spec fn spec_error_kind(e: DiagramError) -> Seq<char> {
    match e {
        DiagramError::ValidationFailed(_) => "validation_failed"@,
        DiagramError::UnsupportedFormat { .. } => "unsupported_format"@,
        DiagramError::ToolNotFound(_) => "tool_not_found"@,
        DiagramError::ExecutionTimeout { .. } => "timeout"@,
        _ => "internal_error"@,
    }
}

/// The status and body answering a rendering error: the validation message
/// (400), the error's text for an unsupported format (400), a missing tool
/// (503) or a timeout (504), and a generic message otherwise (500).
pub open spec fn spec_error_answer(e: DiagramError) -> (u16, Seq<char>) {
    match e {
        DiagramError::ValidationFailed(m) => (400, m@),
        DiagramError::UnsupportedFormat { .. } => (400, e.spec_message()),
        DiagramError::ToolNotFound(_) => (503, e.spec_message()),
        DiagramError::ExecutionTimeout { .. } => (504, e.spec_message()),
        _ => (500, "Diagram generation failed. Check server logs for details."@),
    }
}

/// The answer to a failed rendering.
pub fn error_reply(e: &DiagramError) -> (rep: Reply)
    ensures
        is_reply(rep, spec_error_answer(*e).0, spec_error_answer(*e).1, spec_error_kind(*e)),
{
    match e {
        DiagramError::ValidationFailed(m) => Reply {
            status: 400,
            body: m.clone(),
            error_kind: owned("validation_failed"),
        },
        DiagramError::UnsupportedFormat { .. } => Reply {
            status: 400,
            body: e.to_string(),
            error_kind: owned("unsupported_format"),
        },
        DiagramError::ToolNotFound(_) => Reply {
            status: 503,
            body: e.to_string(),
            error_kind: owned("tool_not_found"),
        },
        DiagramError::ExecutionTimeout { .. } => Reply {
            status: 504,
            body: e.to_string(),
            error_kind: owned("timeout"),
        },
        _ => Reply {
            status: 500,
            body: owned("Diagram generation failed. Check server logs for details."),
            error_kind: owned("internal_error"),
        },
    }
}

/// Judges a rendering: an image larger than `max_output_size` bytes is refused
/// (500, `output_too_large`); an error is answered by `error_reply`.
pub fn check_rendering(result: Result<Vec<u8>, DiagramError>, max_output_size: usize) -> (r: Result<Vec<u8>, Reply>)
    ensures
        result matches Ok(b) ==> (if b@.len() <= max_output_size {
            r matches Ok(v) && v == b
        } else {
            r matches Err(rep) && is_reply(
                rep,
                500,
                "Generated output exceeds size limit ("@ + spec_decimal(b@.len())
                    + " bytes). Consider simplifying the diagram."@,
                "output_too_large"@,
            )
        }),
        result matches Err(e) ==> (r matches Err(rep) && is_reply(
            rep,
            spec_error_answer(e).0,
            spec_error_answer(e).1,
            spec_error_kind(e),
        )),
{
    match result {
        Ok(bytes) => {
            if bytes.len() > max_output_size {
                let body = concat3(
                    "Generated output exceeds size limit (",
                    decimal(bytes.len() as u64).as_str(),
                    " bytes). Consider simplifying the diagram.",
                );
                Err(Reply { status: 500, body, error_kind: owned("output_too_large") })
            } else {
                Ok(bytes)
            }
        },
        Err(e) => Err(error_reply(&e)),
    }
}

/// The answer when converting to WebP fails (500, `webp_conversion_error`).
pub fn webp_failure_reply() -> (rep: Reply)
    ensures
        is_reply(rep, 500, "Diagram generation failed. Check server logs for details."@, "webp_conversion_error"@),
{
    Reply {
        status: 500,
        body: owned("Diagram generation failed. Check server logs for details."),
        error_kind: owned("webp_conversion_error"),
    }
}

/// The content type of a requested format.
pub open spec fn spec_content_type(format: Seq<char>) -> Seq<char> {
    if format == "svg"@ {
        "image/svg+xml"@
    } else if format == "png"@ {
        "image/png"@
    } else if format == "pdf"@ {
        "application/pdf"@
    } else if format == "txt"@ {
        "text/plain"@
    } else if format == "webp"@ {
        "image/webp"@
    } else {
        "application/octet-stream"@
    }
}

/// The content type of a successful answer for the requested format.
pub fn content_type_for(format: &str) -> (t: String)
    ensures
        t@ == spec_content_type(format@),
{
    if str_eq(format, "svg") {
        owned("image/svg+xml")
    } else if str_eq(format, "png") {
        owned("image/png")
    } else if str_eq(format, "pdf") {
        owned("application/pdf")
    } else if str_eq(format, "txt") {
        owned("text/plain")
    } else if str_eq(format, "webp") {
        owned("image/webp")
    } else {
        owned("application/octet-stream")
    }
}

} // verus!
