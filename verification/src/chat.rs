//! Payload and response shapes for chat-completion requests.

use vstd::prelude::*;

verus! {

/// One record of a streamed chat response: the JSON document carried by a
/// single `data: ...` line of the event stream.
pub struct ChatApiResponse {
    pub choices: Vec<ChatChoice>,
}

/// One choice within a streamed chat record.
pub struct ChatChoice {
    pub delta: ChatDelta,
}

/// The incremental fragment of generated text within a choice; `content` is
/// absent when the record carries no text for that choice.
pub struct ChatDelta {
    pub content: Option<String>,
}

impl ChatApiResponse {
    /// The delta text of each choice, in arrival order; `None` where the
    /// choice carries no text.
    pub open spec fn deltas(&self) -> Seq<Option<Seq<char>>> {
        self.choices@.map(|_i: int, c: ChatChoice| c.delta.content.deep_view())
    }
}

/// Outbound chat-completion payload.
pub struct OpenAiChatRequestBody {
    pub model: String,
    pub messages: Vec<ChatMessageRole>,
    pub stream: bool,
}

/// One message of a chat conversation: a role tag and its text.
pub struct ChatMessageRole {
    pub role: String,
    pub content: String,
}

} // verus!
