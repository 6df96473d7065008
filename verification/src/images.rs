//! Payload and response shapes for image-generation requests.

use vstd::prelude::*;

verus! {

/// Outbound image-generation payload.
pub struct OpenAiDalleRequestBody {
    pub model: String,
    pub prompt: String,
    pub n: u8,
    pub size: String,
    pub quality: String,
}

/// One generated image, named by its URL.
pub struct DalleImageGeneration {
    pub url: String,
}

/// The whole-body response of an image-generation request.
pub struct DalleApiResponse {
    pub data: Vec<DalleImageGeneration>,
}

impl DalleApiResponse {
    /// The URL of each generated image, in the order the server returned them.
    pub open spec fn urls(&self) -> Seq<Seq<char>> {
        self.data@.map(|_i: int, g: DalleImageGeneration| g.url@)
    }
}

} // verus!
