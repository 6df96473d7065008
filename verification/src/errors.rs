//! The error taxonomy of the client: every failure a command can end with.
//!
//! Each error aborts the command it arose in; none is retried. The single
//! exception to abort-on-error lives in the streaming chat decoder, which
//! swallows lines that do not parse as chat records instead of failing.

use vstd::prelude::*;

verus! {

/// A fatal failure of one command invocation.
#[derive(Debug)]
pub enum GptError {
    /// The credential environment variable is missing or unusable.
    Config,
    /// The named image file could not be opened or read.
    Resource { path: String },
    /// The network request failed or timed out.
    Transport { detail: String },
    /// The server answered with a non-success status; the body text is kept
    /// when it could be read.
    Server { status: u16, body: Option<String> },
    /// A whole-body response did not parse as the expected document.
    Decode,
    /// Writing to the output sink failed.
    Output { detail: String },
}

impl GptError {
    /// The human-readable message of this error.
    pub open spec fn spec_message(&self) -> Seq<char> {
        match self {
            GptError::Config => "OPENAI_API_KEY environment variable not found or invalid"@,
            GptError::Resource { path } => "Failed to open image file: "@ + path@,
            GptError::Transport { detail } => "Failed to send request to OpenAI: "@ + detail@,
            GptError::Server { .. } => "Failed to get a valid response"@,
            GptError::Decode => "Failed to decode response body"@,
            GptError::Output { detail } => "Failed to flush stdout: "@ + detail@,
        }
    }

    /// Renders the error as one descriptive line for the error stream.
    pub fn message(&self) -> (r: String)
        ensures
            r@ == self.spec_message(),
    {
        match self {
            GptError::Config => {
                String::from_str("OPENAI_API_KEY environment variable not found or invalid")
            },
            GptError::Resource { path } => {
                String::from_str("Failed to open image file: ").concat(path.as_str())
            },
            GptError::Transport { detail } => {
                String::from_str("Failed to send request to OpenAI: ").concat(detail.as_str())
            },
            GptError::Server { .. } => String::from_str("Failed to get a valid response"),
            GptError::Decode => String::from_str("Failed to decode response body"),
            GptError::Output { detail } => {
                String::from_str("Failed to flush stdout: ").concat(detail.as_str())
            },
        }
    }
}

} // verus!
