//! Transfer objects of the rendering API and their mapping to the domain.
use vstd::prelude::*;
use crate::diagrams::DiagramError;
use crate::text::{contains, has_infix, has_prefix, owned, starts_with};
use crate::trusted::{base64_standard, base64_standard_encode, lossy_text, utf8_lossy};

verus! {

/// DTO for a diagram rendering request.
/// Decouples external input (HTTP/CLI) from the internal domain models.
#[derive(Debug, Clone)]
pub struct RenderRequestDto {
    /// The source content of the diagram (plain text).
    pub source: String,
    /// The target output format (e.g., "svg", "png").
    pub format: Option<String>,
    /// The diagram engine/provider (e.g., "mermaid", "graphviz").
    pub provider: Option<String>,
    /// Optional width for the output image.
    pub width: Option<u32>,
    /// Optional height for the output image.
    pub height: Option<u32>,
}

/// DTO for a successful diagram rendering response.
#[derive(Debug, Clone)]
pub struct RenderResponseDto {
    /// The rendered output (e.g., SVG text or base64-encoded image).
    pub result: String,
    /// The content type of the result (e.g., "image/svg+xml").
    pub content_type: String,
    /// Rendering duration in milliseconds.
    pub duration_ms: u64,
}

/// Internal domain model for a rendering request.
#[derive(Debug, Clone)]
pub struct DiagramRequest {
    pub source: String,
    pub format: String,
    pub provider: String,
}

impl DiagramRequest {
    /// Validates a request DTO: the source must not be empty, and the format and
    /// the provider must be given, checked in that order.
    pub fn try_from(dto: RenderRequestDto) -> (r: Result<Self, DiagramError>)
        ensures
            dto.source@.len() == 0 ==> (r matches Err(DiagramError::ValidationFailed(m)) && m@
                == "Source content cannot be empty"@),
            dto.source@.len() > 0 && dto.format is None ==> (r matches Err(
                DiagramError::ValidationFailed(m),
            ) && m@ == "Format must be specified"@),
            dto.source@.len() > 0 && dto.format is Some && dto.provider is None ==> (r matches Err(
                DiagramError::ValidationFailed(m),
            ) && m@ == "Provider must be specified"@),
            dto.source@.len() > 0 && dto.format is Some && dto.provider is Some ==> (r matches Ok(
                req,
            ) && req.source == dto.source && req.format == dto.format->0 && req.provider
                == dto.provider->0),
    {
        if dto.source.as_str().is_empty() {
            return Err(DiagramError::ValidationFailed(owned("Source content cannot be empty")));
        }
        let format = match dto.format {
            Some(f) => f,
            None => return Err(DiagramError::ValidationFailed(owned("Format must be specified"))),
        };
        let provider = match dto.provider {
            Some(p) => p,
            None => return Err(DiagramError::ValidationFailed(owned("Provider must be specified"))),
        };
        Ok(DiagramRequest { source: dto.source, format, provider })
    }
}

/// Whether a content type is sent as text rather than Base64: `text/*`, or any
/// type that mentions SVG.
pub open spec fn is_textual(content_type: Seq<char>) -> bool {
    has_prefix(content_type, "text/"@) || has_infix(content_type, "svg"@)
}

impl RenderResponseDto {
    /// A success response: textual output (see `is_textual`) as text, anything
    /// else in standard Base64.
    pub fn success(result: Vec<u8>, content_type: &str, duration_ms: u64) -> (r: Self)
        ensures
            is_textual(content_type@) ==> r.result@ == lossy_text(result@),
            !is_textual(content_type@) ==> r.result@ == base64_standard(result@),
            r.content_type@ == content_type@,
            r.duration_ms == duration_ms,
    {
        let text = if starts_with(content_type, "text/") || contains(content_type, "svg") {
            utf8_lossy(&result)
        } else {
            base64_standard_encode(&result)
        };
        RenderResponseDto { result: text, content_type: owned(content_type), duration_ms }
    }
}

} // verus!
