use gptcli::constants::RequestType;
use gptcli::utils::{
    build_chat_request, build_dalle_request, build_headers, build_vision_request,
    create_request_type_and_url, join_args,
};
use gptcli::vision::VisionContent;

const GPT_API_URL: &str = "https://api.openai.com/v1/chat/completions";
const DALLE_API_URL: &str = "https://api.openai.com/v1/images/generations";

fn strings(parts: &[&str]) -> Vec<String> {
    parts.iter().map(|p| p.to_string()).collect()
}

#[test]
fn test_build_headers() {
    let headers = build_headers("test_key");
    assert_eq!(headers.len(), 2);
    assert_eq!(headers[0].0, "Authorization");
    assert_eq!(headers[0].1, "Bearer test_key");
    assert_eq!(headers[1].0, "Content-Type");
    assert_eq!(headers[1].1, "application/json");
}

#[test]
fn test_join_args_empty_remainder() {
    let args = strings(&["gpt", "4"]);
    assert_eq!(join_args(&args, 2), "");
}

#[test]
fn test_build_chat_request_with_single_argument() {
    let args = strings(&["gpt", "4", "Hello"]);
    let model = "test-model";

    let request = build_chat_request(&args, model);

    assert_eq!(request.model, "test-model");
    assert_eq!(request.messages.len(), 2);
    assert_eq!(request.messages[0].role, "system");
    assert_eq!(request.messages[0].content, "You are a helpful assistant.");
    assert_eq!(request.messages[1].role, "user");
    assert_eq!(request.messages[1].content, "Hello");
    assert!(request.stream);
}

#[test]
fn test_build_chat_request_with_multiple_arguments() {
    let args = strings(&["gpt", "4", "Hello", "How", "are", "you?"]);
    let model = "test-model";

    let request = build_chat_request(&args, model);

    assert_eq!(request.model, "test-model");
    assert_eq!(request.messages.len(), 2);
    assert_eq!(request.messages[0].role, "system");
    assert_eq!(request.messages[0].content, "You are a helpful assistant.");
    assert_eq!(request.messages[1].role, "user");
    assert_eq!(request.messages[1].content, "Hello How are you?");
    assert!(request.stream);
}

#[test]
fn test_build_dalle_request_with_single_argument() {
    let args = strings(&["gpt", "d", "Astronaut"]);

    let request = build_dalle_request(&args);

    assert_eq!(request.model, "dall-e-3");
    assert_eq!(request.prompt, "Astronaut");
    assert_eq!(request.n, 1);
    assert_eq!(request.size, "1792x1024");
    assert_eq!(request.quality, "hd");
}

#[test]
fn test_build_dalle_request_with_multiple_arguments() {
    let args = strings(&["gpt", "d", "Astronaut", "on", "Mars"]);

    let request = build_dalle_request(&args);

    assert_eq!(request.model, "dall-e-3");
    assert_eq!(request.prompt, "Astronaut on Mars");
    assert_eq!(request.n, 1);
    assert_eq!(request.size, "1792x1024");
    assert_eq!(request.quality, "hd");
}

#[test]
fn test_build_vision_request_with_default_instructions() {
    let args = strings(&["gpt", "v", "some_image.jpg"]);
    let request = build_vision_request(&args, b"Test image data\n");

    assert_eq!(request.model, "gpt-4-vision-preview");
    assert_eq!(request.max_tokens, 300);
    assert_eq!(request.messages.len(), 1);
    assert_eq!(request.messages[0].role, "user");
    assert!(request.messages[0].content.iter().any(
        |content| matches!(content, VisionContent::Text { text } if text == "What's in the image?"),
    ));
}

#[test]
fn test_build_vision_request_with_custom_instructions() {
    let args = strings(&["gpt", "v", "some_image.jpg", "Describe the image"]);
    let request = build_vision_request(&args, b"Test image data\n");

    assert_eq!(request.model, "gpt-4-vision-preview");
    assert_eq!(request.messages.len(), 1);
    assert_eq!(request.messages[0].role, "user");
    assert!(request.messages[0].content.iter().any(
        |content| matches!(content, VisionContent::Text { text } if text == "Describe the image"),
    ));
}

#[test]
fn test_vision_request_embeds_base64_data_url() {
    let image = b"Test data\n";
    let request = build_vision_request(&strings(&["gpt", "v", "f.jpg"]), image);

    let url = match &request.messages[0].content[1] {
        VisionContent::ImageUrl { image_url } => image_url.url.clone(),
        _ => panic!("expected an image part"),
    };
    assert_eq!(url, format!("data:image/jpeg;base64,{}", base64::encode(image)));
}

#[test]
fn test_create_request_type_and_url_for_gpt() {
    let args = strings(&["gpt", "Hello"]);

    let (request_type, api_url) = create_request_type_and_url(&args, None);

    assert!(matches!(request_type, RequestType::Chat(_)));
    assert_eq!(api_url, GPT_API_URL);
}

#[test]
fn test_create_request_type_and_url_for_gpt4() {
    let args = strings(&["gpt", "4", "Hello"]);

    let (request_type, api_url) = create_request_type_and_url(&args, None);

    match &request_type {
        RequestType::Chat(body) => {
            assert_eq!(body.model, "gpt-4");
            assert_eq!(body.messages[1].content, "Hello");
        }
        _ => panic!("expected a chat request"),
    }
    assert_eq!(api_url, GPT_API_URL);
}

#[test]
fn test_create_request_type_and_url_for_vision() {
    let args = strings(&["gpt", "v", "rust_astronaut.png", "Describe this image"]);

    let (request_type, api_url) = create_request_type_and_url(&args, Some(b"fake image bytes"));

    match &request_type {
        RequestType::Vision(body) => {
            assert!(body.messages[0].content.iter().any(
                |c| matches!(c, VisionContent::Text { text } if text == "Describe this image"),
            ));
        }
        _ => panic!("expected a vision request"),
    }
    assert_eq!(api_url, GPT_API_URL);
}

#[test]
fn test_create_request_type_and_url_for_dalle() {
    let args = strings(&["gpt", "d", "Astronaut on Mars"]);

    let (request_type, api_url) = create_request_type_and_url(&args, None);

    match &request_type {
        RequestType::Dalle(body) => {
            assert_eq!(body.prompt, "Astronaut on Mars");
            assert_eq!(body.n, 1);
            assert_eq!(body.size, "1792x1024");
            assert_eq!(body.quality, "hd");
        }
        _ => panic!("expected an image-generation request"),
    }
    assert_eq!(api_url, DALLE_API_URL);
}

#[test]
fn test_create_request_type_and_url_default_case() {
    let args = strings(&["gpt", "unknown", "Hello"]);

    let (request_type, api_url) = create_request_type_and_url(&args, None);

    assert!(matches!(request_type, RequestType::Chat(_)));
    assert_eq!(api_url, GPT_API_URL);
}

#[test]
fn test_fallback_keeps_every_argument_in_the_prompt() {
    let args = strings(&["gpt", "unknown", "Hello"]);

    let (request_type, _) = create_request_type_and_url(&args, None);

    match &request_type {
        RequestType::Chat(body) => {
            assert_eq!(body.model, "gpt-3.5-turbo");
            assert_eq!(body.messages[1].content, "unknown Hello");
        }
        _ => panic!("expected a chat request"),
    }
}

#[test]
fn test_absent_dispatch_key_gives_default_chat() {
    let args = strings(&["gpt"]);

    let (request_type, api_url) = create_request_type_and_url(&args, None);

    match &request_type {
        RequestType::Chat(body) => {
            assert_eq!(body.model, "gpt-3.5-turbo");
            assert_eq!(body.messages[1].content, "");
        }
        _ => panic!("expected a chat request"),
    }
    assert_eq!(api_url, GPT_API_URL);
}
