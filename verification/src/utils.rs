//! The request builder: classifies command-line input into a request variant,
//! joins prompt text, and assembles headers and payloads.

use vstd::prelude::*;

use crate::chat::{ChatMessageRole, OpenAiChatRequestBody};
use crate::constants::{
    api_url_for, spec_api_url_for, spec_cmd_dalle, spec_cmd_gpt4, spec_cmd_vision, spec_dalle_model,
    spec_default_model, spec_default_vision_instructions, spec_gpt4_model, spec_gpt4_vision_model,
    RequestType,
};
use crate::images::OpenAiDalleRequestBody;
use crate::vision::{ImageUrl, OpenAiVisionRequestBody, VisionContent, VisionMessageRole};

verus! {

/// The given parts joined with a single space between neighbours.
pub open spec fn join_with_spaces(parts: Seq<Seq<char>>) -> Seq<char>
    decreases parts.len(),
{
    if parts.len() == 0 {
        Seq::empty()
    } else if parts.len() == 1 {
        parts[0]
    } else {
        parts[0] + seq![' '] + join_with_spaces(parts.skip(1))
    }
}

/// Appending one part to a joined sequence appends a separator (unless the
/// sequence was empty) and the part.
proof fn lemma_join_push(parts: Seq<Seq<char>>, x: Seq<char>)
    ensures
        join_with_spaces(parts.push(x)) == if parts.len() == 0 {
            x
        } else {
            join_with_spaces(parts) + seq![' '] + x
        },
    decreases parts.len(),
{
    if parts.len() == 0 {
        assert(parts.push(x).len() == 1);
        assert(parts.push(x)[0] == x);
    } else if parts.len() == 1 {
        assert(parts.push(x).skip(1) =~= seq![x]);
        assert(join_with_spaces(seq![x]) == x);
        assert(parts.push(x)[0] == parts[0]);
    } else {
        lemma_join_push(parts.skip(1), x);
        assert(parts.push(x).skip(1) =~= parts.skip(1).push(x));
        assert(parts.push(x)[0] == parts[0]);
        assert(join_with_spaces(parts.push(x)) == parts[0] + seq![' '] + (join_with_spaces(
            parts.skip(1),
        ) + seq![' '] + x));
        assert(parts[0] + seq![' '] + (join_with_spaces(parts.skip(1)) + seq![' '] + x) =~= (parts[0]
            + seq![' '] + join_with_spaces(parts.skip(1))) + seq![' '] + x);
    }
}

/// Joins the arguments from index `from` onward with single spaces.
pub fn join_args(args: &[String], from: usize) -> (r: String)
    requires
        from <= args@.len(),
    ensures
        r@ == join_with_spaces(args.deep_view().skip(from as int)),
{
    let ghost parts = args.deep_view();
    let mut r = String::new();
    let mut i: usize = from;
    while i < args.len()
        invariant
            from <= i <= args@.len(),
            parts == args.deep_view(),
            parts.len() == args@.len(),
            r@ == join_with_spaces(parts.subrange(from as int, i as int)),
        decreases args@.len() - i,
    {
        proof {
            lemma_join_push(parts.subrange(from as int, i as int), parts[i as int]);
            assert(parts.subrange(from as int, i as int).push(parts[i as int]) =~= parts.subrange(
                from as int,
                i as int + 1,
            ));
            reveal_strlit(" ");
            assert(" "@ =~= seq![' ']);
        }
        if i > from {
            r.append(" ");
        }
        r.append(args[i].as_str());
        i += 1;
    }
    proof {
        assert(parts.subrange(from as int, parts.len() as int) =~= parts.skip(from as int));
    }
    r
}

/// The request headers as name/value pairs: the bearer authorization built
/// from the given credential, and the JSON content type.
pub fn build_headers(api_key: &str) -> (r: Vec<(String, String)>)
    ensures
        r@.len() == 2,
        r@[0].0@ == "Authorization"@,
        r@[0].1@ == "Bearer "@ + api_key@,
        r@[1].0@ == "Content-Type"@,
        r@[1].1@ == "application/json"@,
{
    let mut headers: Vec<(String, String)> = Vec::new();
    headers.push(
        (String::from_str("Authorization"), String::from_str("Bearer ").concat(api_key)),
    );
    headers.push((String::from_str("Content-Type"), String::from_str("application/json")));
    headers
}

/// Whether `b` is the chat payload for the given model and prompt: a fixed
/// system preamble followed by the prompt as the user message, streaming on.
pub open spec fn spec_chat_body(b: OpenAiChatRequestBody, model: Seq<char>, prompt: Seq<char>) -> bool {
    &&& b.model@ == model
    &&& b.stream == true
    &&& b.messages@.len() == 2
    &&& b.messages@[0].role@ == "system"@
    &&& b.messages@[0].content@ == "You are a helpful assistant."@
    &&& b.messages@[1].role@ == "user"@
    &&& b.messages@[1].content@ == prompt
}

/// Assembles a chat payload around an already-joined prompt.
fn chat_body_with_prompt(model: &str, prompt: String) -> (r: OpenAiChatRequestBody)
    ensures
        spec_chat_body(r, model@, prompt@),
{
    let mut messages: Vec<ChatMessageRole> = Vec::new();
    messages.push(
        ChatMessageRole {
            role: String::from_str("system"),
            content: String::from_str("You are a helpful assistant."),
        },
    );
    messages.push(ChatMessageRole { role: String::from_str("user"), content: prompt });
    OpenAiChatRequestBody { model: String::from_str(model), messages, stream: true }
}

/// Builds a chat payload for the given model; the prompt is the argument
/// list from index 2 onward joined with spaces.
pub fn build_chat_request(args: &[String], model: &str) -> (r: OpenAiChatRequestBody)
    requires
        args@.len() >= 2,
    ensures
        spec_chat_body(r, model@, join_with_spaces(args.deep_view().skip(2))),
{
    chat_body_with_prompt(model, join_args(args, 2))
}

/// Whether `b` is the image-generation payload for the given prompt: one
/// image, fixed size and quality, the fixed image model.
pub open spec fn spec_dalle_body(b: OpenAiDalleRequestBody, prompt: Seq<char>) -> bool {
    &&& b.model@ == spec_dalle_model()
    &&& b.prompt@ == prompt
    &&& b.n == 1u8
    &&& b.size@ == "1792x1024"@
    &&& b.quality@ == "hd"@
}

/// Builds an image-generation payload; the prompt is the argument list from
/// index 2 onward joined with spaces.
pub fn build_dalle_request(args: &[String]) -> (r: OpenAiDalleRequestBody)
    requires
        args@.len() >= 2,
    ensures
        spec_dalle_body(r, join_with_spaces(args.deep_view().skip(2))),
{
    OpenAiDalleRequestBody {
        model: String::from_str("dall-e-3"),
        prompt: join_args(args, 2),
        n: 1,
        size: String::from_str("1792x1024"),
        quality: String::from_str("hd"),
    }
}

/// The base64 text that standard padded encoding gives for these bytes.
pub uninterp spec fn base64_of(bytes: Seq<u8>) -> Seq<char>;

/// Relies on base64::encode: standard-alphabet padded encoding, a function
/// of the input bytes alone; four output characters for every three input
/// bytes begun.
#[verifier::external_body]
fn base64_encode(bytes: &[u8]) -> (r: String)
    ensures
        r@ == base64_of(bytes@),
        r@.len() == 4 * ((bytes@.len() + 2) / 3),
{
    base64::encode(bytes)
}

/// The instruction text of a vision request: the argument list from index 3
/// onward joined with spaces, or the fixed default when nothing follows the
/// image path.
pub open spec fn spec_vision_instructions(args: Seq<Seq<char>>) -> Seq<char> {
    if args.len() > 3 {
        join_with_spaces(args.skip(3))
    } else {
        spec_default_vision_instructions()
    }
}

/// Whether `b` is the vision payload for the given instruction text and
/// image bytes: one user message holding exactly the instruction text and
/// then the image as a base64 data URL with the fixed JPEG media type.
pub open spec fn spec_vision_body(
    b: OpenAiVisionRequestBody,
    instructions: Seq<char>,
    image: Seq<u8>,
) -> bool {
    &&& b.model@ == spec_gpt4_vision_model()
    &&& b.max_tokens == 300u32
    &&& b.messages@.len() == 1
    &&& b.messages@[0].role@ == "user"@
    &&& b.messages@[0].content@.len() == 2
    &&& (b.messages@[0].content@[0] matches VisionContent::Text { text } && text@ == instructions)
    &&& (b.messages@[0].content@[1] matches VisionContent::ImageUrl { image_url } && image_url.url@
        == "data:image/jpeg;base64,"@ + base64_of(image))
}

/// Builds a vision payload from the argument list and the bytes of the image
/// file the caller read; the caller hands the bytes over because reading the
/// file is its concern, not the builder's.
pub fn build_vision_request(args: &[String], image_data: &[u8]) -> (r: OpenAiVisionRequestBody)
    requires
        args@.len() >= 3,
    ensures
        spec_vision_body(r, spec_vision_instructions(args.deep_view()), image_data@),
{
    let instructions = if args.len() > 3 {
        join_args(args, 3)
    } else {
        String::from_str("What's in the image?")
    };
    let encoded = base64_encode(image_data);
    let url = String::from_str("data:image/jpeg;base64,").concat(encoded.as_str());
    let mut content: Vec<VisionContent> = Vec::new();
    content.push(VisionContent::Text { text: instructions });
    content.push(VisionContent::ImageUrl { image_url: ImageUrl { url } });
    let mut messages: Vec<VisionMessageRole> = Vec::new();
    messages.push(VisionMessageRole { role: String::from_str("user"), content });
    OpenAiVisionRequestBody {
        model: String::from_str("gpt-4-vision-preview"),
        messages,
        max_tokens: 300,
    }
}

/// Whether an HTTP status routes the response to a decoder: only a success
/// status does; any other status ends the command as a server error.
pub fn is_success_status(status: u16) -> (r: bool)
    ensures
        r == (200 <= status < 300),
{
    200 <= status && status < 300
}

/// The dispatch key: the second argument, or empty when absent.
pub open spec fn spec_dispatch_key(args: Seq<Seq<char>>) -> Seq<char> {
    if args.len() >= 2 {
        args[1]
    } else {
        Seq::empty()
    }
}

/// The dispatch key selects the GPT-4 chat model.
pub open spec fn spec_is_chat4(args: Seq<Seq<char>>) -> bool {
    spec_dispatch_key(args) == spec_cmd_gpt4()
}

/// The dispatch key selects vision analysis.
pub open spec fn spec_is_vision(args: Seq<Seq<char>>) -> bool {
    spec_dispatch_key(args) == spec_cmd_vision()
}

/// The dispatch key selects image generation.
pub open spec fn spec_is_dalle(args: Seq<Seq<char>>) -> bool {
    spec_dispatch_key(args) == spec_cmd_dalle()
}

/// The dispatch key is unrecognized or absent: the invocation falls back to
/// chat with the default model.
pub open spec fn spec_is_fallback(args: Seq<Seq<char>>) -> bool {
    !spec_is_chat4(args) && !spec_is_vision(args) && !spec_is_dalle(args)
}

/// Classifies the argument list into exactly one request variant and its
/// target endpoint. A recognized key takes the arguments from index 2 onward
/// as its text; an unrecognized or absent key falls back to chat with the
/// default model, keeping every argument from index 1 onward as the prompt.
/// For a vision invocation the caller hands over the bytes of the image file
/// named at index 2.
pub fn create_request_type_and_url(args: &[String], image_data: Option<&[u8]>) -> (r: (
    RequestType,
    String,
))
    requires
        args@.len() >= 1,
        spec_is_vision(args.deep_view()) ==> args@.len() >= 3 && image_data is Some,
    ensures
        spec_is_chat4(args.deep_view()) ==> (r.0 matches RequestType::Chat(b) && spec_chat_body(
            b,
            spec_gpt4_model(),
            join_with_spaces(args.deep_view().skip(2)),
        )),
        spec_is_vision(args.deep_view()) ==> (r.0 matches RequestType::Vision(b)
            && spec_vision_body(
            b,
            spec_vision_instructions(args.deep_view()),
            image_data.unwrap()@,
        )),
        spec_is_dalle(args.deep_view()) ==> (r.0 matches RequestType::Dalle(b) && spec_dalle_body(
            b,
            join_with_spaces(args.deep_view().skip(2)),
        )),
        spec_is_fallback(args.deep_view()) ==> (r.0 matches RequestType::Chat(b) && spec_chat_body(
            b,
            spec_default_model(),
            join_with_spaces(args.deep_view().skip(1)),
        )),
        r.1@ == spec_api_url_for(&r.0),
{
    proof {
        reveal_strlit("4");
        reveal_strlit("v");
        reveal_strlit("d");
        reveal_strlit("");
        assert("4"@.len() == 1 && "4"@[0] == '4');
        assert("v"@.len() == 1 && "v"@[0] == 'v');
        assert("d"@.len() == 1 && "d"@[0] == 'd');
        assert(""@.len() == 0);
        assert("4"@ != "v"@);
        assert("4"@ != "d"@);
        assert("v"@ != "d"@);
        assert(""@ != "4"@);
        assert(""@ != "v"@);
        assert(""@ != "d"@);
        assert(args.deep_view().len() == args@.len());
        if args@.len() >= 2 {
            assert(args.deep_view()[1] == args@[1].deep_view());
        } else {
            assert(spec_dispatch_key(args.deep_view()) == Seq::<char>::empty());
            assert(""@ =~= Seq::<char>::empty());
        }
    }
    let request_type: RequestType = if args.len() >= 2 && args[1] == String::from_str("4") {
        RequestType::Chat(build_chat_request(args, "gpt-4"))
    } else if args.len() >= 2 && args[1] == String::from_str("v") {
        RequestType::Vision(build_vision_request(args, image_data.unwrap()))
    } else if args.len() >= 2 && args[1] == String::from_str("d") {
        RequestType::Dalle(build_dalle_request(args))
    } else {
        RequestType::Chat(chat_body_with_prompt("gpt-3.5-turbo", join_args(args, 1)))
    };
    let api_url = api_url_for(&request_type);
    (request_type, api_url)
}

} // verus!
