//! The request variants, the fixed model identifiers, command tokens and
//! endpoint addresses, and the endpoint selection rule.

use vstd::prelude::*;

use crate::chat::OpenAiChatRequestBody;
use crate::images::OpenAiDalleRequestBody;
use crate::vision::OpenAiVisionRequestBody;

verus! {

/// The one request of an invocation: exactly one variant is built per run,
/// chosen from the command-line input, and carried unchanged to the wire.
pub enum RequestType {
    Chat(OpenAiChatRequestBody),
    Vision(OpenAiVisionRequestBody),
    Dalle(OpenAiDalleRequestBody),
}

/// The chat-completions endpoint, shared by chat and vision requests.
pub open spec fn spec_gpt_api_url() -> Seq<char> {
    "https://api.openai.com/v1/chat/completions"@
}

/// The image-generation endpoint.
pub open spec fn spec_dalle_api_url() -> Seq<char> {
    "https://api.openai.com/v1/images/generations"@
}

/// The model used for chat when no recognized command token is given.
pub open spec fn spec_default_model() -> Seq<char> {
    "gpt-3.5-turbo"@
}

/// The model selected by the GPT-4 command token.
pub open spec fn spec_gpt4_model() -> Seq<char> {
    "gpt-4"@
}

/// The fixed vision model identifier.
pub open spec fn spec_gpt4_vision_model() -> Seq<char> {
    "gpt-4-vision-preview"@
}

/// The fixed image-generation model identifier.
pub open spec fn spec_dalle_model() -> Seq<char> {
    "dall-e-3"@
}

/// The instruction text used when a vision request names no instructions.
pub open spec fn spec_default_vision_instructions() -> Seq<char> {
    "What's in the image?"@
}

/// The command token selecting the GPT-4 chat model.
pub open spec fn spec_cmd_gpt4() -> Seq<char> {
    "4"@
}

/// The command token selecting vision analysis.
pub open spec fn spec_cmd_vision() -> Seq<char> {
    "v"@
}

/// The command token selecting image generation.
pub open spec fn spec_cmd_dalle() -> Seq<char> {
    "d"@
}

/// The endpoint a request variant is sent to: chat and vision target the
/// chat-completions endpoint, image generation its own endpoint. A function
/// of the variant's tag alone, not of the command input.
pub open spec fn spec_api_url_for(request_type: &RequestType) -> Seq<char> {
    match request_type {
        RequestType::Dalle(_) => spec_dalle_api_url(),
        _ => spec_gpt_api_url(),
    }
}

/// Selects the target endpoint for a built request.
pub fn api_url_for(request_type: &RequestType) -> (r: String)
    ensures
        r@ == spec_api_url_for(request_type),
{
    match request_type {
        RequestType::Dalle(_) => String::from_str("https://api.openai.com/v1/images/generations"),
        _ => String::from_str("https://api.openai.com/v1/chat/completions"),
    }
}

} // verus!
