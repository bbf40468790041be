//! Errors of diagram generation.
use vstd::prelude::*;
use crate::text::{concat2, concat3, decimal, spec_decimal};

verus! {

/// Represents all possible errors that can occur during diagram generation.
#[derive(Debug, Clone)]
pub enum DiagramError {
    /// The input diagram source failed validation.
    ValidationFailed(String),
    /// The required underlying tool or binary was not found on the system.
    ToolNotFound(String),
    /// Execution of the tool timed out.
    ExecutionTimeout { tool: String, timeout_ms: u64, bytes: usize },
    /// The tool process executed but returned a non-zero exit code or failed to yield expected output.
    ProcessFailed(String),
    /// Base64 decoding, Zlib decompression, or UTF-8 conversion failed.
    DecodeFailed(String),
    /// The requested output format is not supported by this provider.
    UnsupportedFormat { format: String, provider: String },
    /// Catch-all for I/O errors during execution, with the I/O error's text.
    Io(String),
    /// An unexpected error occurred.
    Internal(String),
}

/// A specialized Result type for diagram generation operations.
pub type DiagramResult<T> = Result<T, DiagramError>;

impl DiagramError {
    /// The text shown for the error.
    pub open spec fn spec_message(&self) -> Seq<char> {
        match self {
            DiagramError::ValidationFailed(m) => "Validation failed: "@ + m@,
            DiagramError::ToolNotFound(t) => "Tool not found: '"@ + t@
                + "'. Is it installed and in your PATH?"@,
            DiagramError::ExecutionTimeout { tool, timeout_ms, bytes } => "'"@ + tool@
                + "' timed out after "@ + spec_decimal(*timeout_ms as nat) + "ms (input: "@
                + spec_decimal(*bytes as nat) + " bytes)"@,
            DiagramError::ProcessFailed(m) => "Process execution failed: "@ + m@,
            DiagramError::DecodeFailed(m) => "Failed to decode requested string: "@ + m@,
            DiagramError::UnsupportedFormat { format, provider } => "Format '"@ + format@
                + "' is not supported by provider '"@ + provider@ + "'"@,
            DiagramError::Io(m) => "I/O error: "@ + m@,
            DiagramError::Internal(m) => "Internal error: "@ + m@,
        }
    }

    /// The text shown for the error.
    pub fn to_string(&self) -> (s: String)
        ensures
            s@ == self.spec_message(),
    {
        match self {
            DiagramError::ValidationFailed(m) => concat2("Validation failed: ", m.as_str()),
            DiagramError::ToolNotFound(t) => concat3(
                "Tool not found: '",
                t.as_str(),
                "'. Is it installed and in your PATH?",
            ),
            DiagramError::ExecutionTimeout { tool, timeout_ms, bytes } => {
                let mut s = concat3("'", tool.as_str(), "' timed out after ");
                s.append(decimal(*timeout_ms).as_str());
                s.append("ms (input: ");
                s.append(decimal(*bytes as u64).as_str());
                s.append(" bytes)");
                s
            },
            DiagramError::ProcessFailed(m) => concat2("Process execution failed: ", m.as_str()),
            DiagramError::DecodeFailed(m) => concat2(
                "Failed to decode requested string: ",
                m.as_str(),
            ),
            DiagramError::UnsupportedFormat { format, provider } => {
                let mut s = concat3("Format '", format.as_str(), "' is not supported by provider '");
                s.append(provider.as_str());
                s.append("'");
                s
            },
            DiagramError::Io(m) => concat2("I/O error: ", m.as_str()),
            DiagramError::Internal(m) => concat2("Internal error: ", m.as_str()),
        }
    }
}

} // verus!
