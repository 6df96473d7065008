//! Payload and response shapes for vision-analysis requests.

use vstd::prelude::*;

verus! {

/// The descriptive text returned for one vision choice.
pub struct VisionMessage {
    pub content: String,
}

/// One choice of a vision response.
pub struct VisionChoice {
    pub message: VisionMessage,
}

/// The whole-body response of a vision-analysis request.
pub struct VisionApiResponse {
    pub choices: Vec<VisionChoice>,
}

impl VisionApiResponse {
    /// The message text of each choice, in order.
    pub open spec fn contents(&self) -> Seq<Seq<char>> {
        self.choices@.map(|_i: int, c: VisionChoice| c.message.content@)
    }
}

/// A link or data URL naming the submitted image.
pub struct ImageUrl {
    pub url: String,
}

/// One part of a vision message: either instruction text or the image itself.
pub enum VisionContent {
    Text { text: String },
    ImageUrl { image_url: ImageUrl },
}

/// One message of a vision conversation: a role tag and its content parts.
pub struct VisionMessageRole {
    pub role: String,
    pub content: Vec<VisionContent>,
}

/// Outbound vision-analysis payload.
pub struct OpenAiVisionRequestBody {
    pub model: String,
    pub messages: Vec<VisionMessageRole>,
    pub max_tokens: u32,
}

} // verus!
