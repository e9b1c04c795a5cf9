//! The request bodies of each operation.

use elizaos_plugin_gateway::request::{
    authorization, bearer_token, description_request, embedding_request, endpoint_url, image_request,
    object_params, stream_request, text_request, text_request_for, CHAT_COMPLETIONS_PATH,
    DESCRIPTION_MAX_TOKENS, DESCRIPTION_MODEL, DESCRIPTION_PROMPT, EMBEDDINGS_PATH,
    IMAGE_GENERATIONS_PATH,
};
use elizaos_plugin_gateway::types::{ImageQuality, ImageSize, ImageStyle};
use elizaos_plugin_gateway::{
    EmbeddingParams, GatewayConfig, GatewayError, ImageDescriptionParams, ImageGenerationParams,
    JsonValue, TextGenerationParams,
};

fn keys(body: &JsonValue) -> Vec<String> {
    match body {
        JsonValue::Object(fields) => fields.iter().map(|f| f.name.clone()).collect(),
        _ => panic!("the body is no object"),
    }
}

fn text_of(value: &JsonValue) -> &str {
    match value {
        JsonValue::Text(s) => s.as_str(),
        _ => panic!("the value is no string"),
    }
}

fn items_of(value: &JsonValue) -> &Vec<JsonValue> {
    match value {
        JsonValue::Array(items) => items,
        _ => panic!("the value is no array"),
    }
}

fn unsigned_of(value: &JsonValue) -> u64 {
    match value {
        JsonValue::Unsigned(n) => *n,
        _ => panic!("the value is no count"),
    }
}

fn bits_of(value: &JsonValue) -> u32 {
    match value {
        JsonValue::Float32(bits) => *bits,
        _ => panic!("the value is no real number"),
    }
}

fn full_params() -> TextGenerationParams {
    let mut params = TextGenerationParams::new("Tell me a story")
        .system("Be brief")
        .temperature(0.5f32.to_bits())
        .max_tokens(256);
    params.frequency_penalty = Some(0.25f32.to_bits());
    params.presence_penalty = Some(1.5f32.to_bits());
    params.stop = Some(vec!["END".to_string(), "\n\n".to_string()]);
    params
}

#[test]
fn test_prompt_only_request_has_model_and_messages_only() {
    let params = TextGenerationParams::new("Hello");
    let body = text_request_for(&params, "gpt-4-turbo", true, false);
    assert_eq!(keys(&body), vec!["model", "messages"]);
    assert!(body.get("temperature").is_none());
    assert_eq!(text_of(body.get("model").unwrap()), "gpt-4-turbo");
    let messages = items_of(body.get("messages").unwrap());
    assert_eq!(messages.len(), 1);
    assert_eq!(keys(&messages[0]), vec!["role", "content"]);
    assert_eq!(text_of(messages[0].get("role").unwrap()), "user");
    assert_eq!(text_of(messages[0].get("content").unwrap()), "Hello");
}

#[test]
fn test_system_message_comes_first() {
    let params = TextGenerationParams::new("Hello").system("Be kind");
    let body = text_request_for(&params, "gpt-4-turbo", true, false);
    let messages = items_of(body.get("messages").unwrap());
    assert_eq!(messages.len(), 2);
    assert_eq!(text_of(messages[0].get("role").unwrap()), "system");
    assert_eq!(text_of(messages[0].get("content").unwrap()), "Be kind");
    assert_eq!(text_of(messages[1].get("role").unwrap()), "user");
    assert_eq!(text_of(messages[1].get("content").unwrap()), "Hello");
}

#[test]
fn test_capable_model_gets_every_supplied_control() {
    let body = text_request_for(&full_params(), "gpt-4-turbo", true, false);
    assert_eq!(
        keys(&body),
        vec![
            "model",
            "messages",
            "temperature",
            "frequency_penalty",
            "presence_penalty",
            "stop",
            "max_tokens"
        ]
    );
    assert_eq!(f32::from_bits(bits_of(body.get("temperature").unwrap())), 0.5);
    assert_eq!(f32::from_bits(bits_of(body.get("frequency_penalty").unwrap())), 0.25);
    assert_eq!(f32::from_bits(bits_of(body.get("presence_penalty").unwrap())), 1.5);
    let stop = items_of(body.get("stop").unwrap());
    assert_eq!(stop.len(), 2);
    assert_eq!(text_of(&stop[0]), "END");
    assert_eq!(text_of(&stop[1]), "\n\n");
    assert_eq!(unsigned_of(body.get("max_tokens").unwrap()), 256);
    assert!(body.get("max_completion_tokens").is_none());
}

#[test]
fn test_capable_model_gets_only_what_was_supplied() {
    let params = TextGenerationParams::new("Hello").max_tokens(10);
    let body = text_request_for(&params, "gpt-4-turbo", true, false);
    assert_eq!(keys(&body), vec!["model", "messages", "max_tokens"]);
    let mut params = TextGenerationParams::new("Hello");
    params.presence_penalty = Some(0.0f32.to_bits());
    let body = text_request_for(&params, "gpt-4-turbo", true, false);
    assert_eq!(keys(&body), vec!["model", "messages", "presence_penalty"]);
}

#[test]
fn test_reasoning_model_drops_controls_and_renames_limit() {
    let params = TextGenerationParams::new("Hello")
        .temperature(0.7f32.to_bits())
        .max_tokens(1000);
    let body = text_request_for(&params, "o3-mini", false, false);
    assert_eq!(keys(&body), vec!["model", "messages", "max_completion_tokens"]);
    assert_eq!(unsigned_of(body.get("max_completion_tokens").unwrap()), 1000);
    assert!(body.get("max_tokens").is_none());
    assert!(body.get("temperature").is_none());
}

#[test]
fn test_reasoning_model_drops_all_five_controls() {
    let body = text_request_for(&full_params(), "o1", false, false);
    assert_eq!(keys(&body), vec!["model", "messages", "max_completion_tokens"]);
    let mut params = full_params();
    params.max_tokens = None;
    let body = text_request_for(&params, "o1", false, false);
    assert_eq!(keys(&body), vec!["model", "messages"]);
}

#[test]
fn test_text_request_uses_configured_large_model() {
    let config = GatewayConfig::new("k").large_model("gpt-4-turbo");
    let params = TextGenerationParams::new("Hello").temperature(0.5f32.to_bits());
    let body = text_request(&params, &config);
    assert_eq!(text_of(body.get("model").unwrap()), "gpt-4-turbo");
    assert_eq!(keys(&body), vec!["model", "messages", "temperature"]);
}

#[test]
fn test_text_request_prefers_model_override() {
    let config = GatewayConfig::new("k").large_model("gpt-4-turbo");
    let params = TextGenerationParams::new("Hello")
        .model("o1-preview")
        .temperature(0.5f32.to_bits())
        .max_tokens(5);
    let body = text_request(&params, &config);
    assert_eq!(text_of(body.get("model").unwrap()), "o1-preview");
    assert_eq!(keys(&body), vec!["model", "messages", "max_completion_tokens"]);
}

#[test]
fn test_text_request_for_default_model_is_reasoning_only() {
    let config = GatewayConfig::new("k");
    let params = TextGenerationParams::new("Hello").temperature(0.5f32.to_bits());
    let body = text_request(&params, &config);
    assert_eq!(text_of(body.get("model").unwrap()), "gpt-5");
    assert_eq!(keys(&body), vec!["model", "messages"]);
}

#[test]
fn test_stream_request_sets_flag() {
    let config = GatewayConfig::new("k").large_model("gpt-4-turbo");
    let params = TextGenerationParams::new("Hello").max_tokens(7);
    let body = stream_request(&params, &config);
    assert_eq!(keys(&body), vec!["model", "messages", "stream", "max_tokens"]);
    match body.get("stream").unwrap() {
        JsonValue::Bool(flag) => assert!(*flag),
        _ => panic!("the flag is no boolean"),
    }
    let plain = text_request(&params, &config);
    assert!(plain.get("stream").is_none());
}

#[test]
fn test_request_is_repeatable() {
    let config = GatewayConfig::new("k").large_model("gpt-4-turbo");
    let params = full_params();
    let first = format!("{:?}", text_request(&params, &config));
    let second = format!("{:?}", text_request(&params, &config));
    assert_eq!(first, second);
    let copy = params.clone();
    let third = format!("{:?}", text_request(&copy, &config));
    assert_eq!(first, third);
}

#[test]
fn test_embedding_request_members() {
    let config = GatewayConfig::new("k");
    let params = EmbeddingParams::new("embed me");
    let body = embedding_request(&params, &config);
    assert_eq!(keys(&body), vec!["model", "input"]);
    assert_eq!(text_of(body.get("model").unwrap()), "text-embedding-3-small");
    assert_eq!(text_of(body.get("input").unwrap()), "embed me");
    let mut params = EmbeddingParams::new("embed me");
    params.model = Some("other-embedder".to_string());
    params.dimensions = Some(256);
    let body = embedding_request(&params, &config);
    assert_eq!(keys(&body), vec!["model", "input", "dimensions"]);
    assert_eq!(text_of(body.get("model").unwrap()), "other-embedder");
    assert_eq!(unsigned_of(body.get("dimensions").unwrap()), 256);
}

#[test]
fn test_image_request_members() {
    let config = GatewayConfig::new("k");
    let params = ImageGenerationParams::new("a cat");
    let body = image_request(&params, &config);
    assert_eq!(keys(&body), vec!["model", "prompt"]);
    assert_eq!(text_of(body.get("model").unwrap()), "dall-e-3");
    assert_eq!(text_of(body.get("prompt").unwrap()), "a cat");
    let mut params = ImageGenerationParams::new("a cat");
    params.n = Some(2);
    params.size = Some(ImageSize::Size1792x1024);
    params.quality = Some(ImageQuality::Hd);
    params.style = Some(ImageStyle::Natural);
    let body = image_request(&params, &config);
    assert_eq!(keys(&body), vec!["model", "prompt", "n", "size", "quality", "style"]);
    assert_eq!(unsigned_of(body.get("n").unwrap()), 2);
    assert_eq!(text_of(body.get("size").unwrap()), "1792x1024");
    assert_eq!(text_of(body.get("quality").unwrap()), "hd");
    assert_eq!(text_of(body.get("style").unwrap()), "natural");
    let mut params = ImageGenerationParams::new("a cat");
    params.style = Some(ImageStyle::Vivid);
    let body = image_request(&params, &config);
    assert_eq!(keys(&body), vec!["model", "prompt", "style"]);
    assert_eq!(text_of(body.get("style").unwrap()), "vivid");
}

#[test]
fn test_canonical_tokens() {
    assert_eq!(ImageSize::Size256.as_str(), "256x256");
    assert_eq!(ImageSize::Size512.as_str(), "512x512");
    assert_eq!(ImageSize::Size1024.as_str(), "1024x1024");
    assert_eq!(ImageSize::Size1792x1024.as_str(), "1792x1024");
    assert_eq!(ImageSize::Size1024x1792.as_str(), "1024x1792");
    assert_eq!(ImageQuality::Standard.as_str(), "standard");
    assert_eq!(ImageQuality::Hd.as_str(), "hd");
    assert_eq!(ImageStyle::Vivid.as_str(), "vivid");
    assert_eq!(ImageStyle::Natural.as_str(), "natural");
}

#[test]
fn test_description_request_defaults() {
    let params = ImageDescriptionParams::new("https://example.com/cat.png");
    let body = description_request(&params);
    assert_eq!(keys(&body), vec!["model", "messages", "max_tokens"]);
    assert_eq!(text_of(body.get("model").unwrap()), "gpt-5-mini");
    assert_eq!(DESCRIPTION_MODEL, "gpt-5-mini");
    assert_eq!(unsigned_of(body.get("max_tokens").unwrap()), 8192);
    assert_eq!(DESCRIPTION_MAX_TOKENS, 8192);
    let messages = items_of(body.get("messages").unwrap());
    assert_eq!(messages.len(), 1);
    assert_eq!(keys(&messages[0]), vec!["role", "content"]);
    assert_eq!(text_of(messages[0].get("role").unwrap()), "user");
    let parts = items_of(messages[0].get("content").unwrap());
    assert_eq!(parts.len(), 2);
    assert_eq!(keys(&parts[0]), vec!["type", "text"]);
    assert_eq!(text_of(parts[0].get("type").unwrap()), "text");
    assert_eq!(
        text_of(parts[0].get("text").unwrap()),
        "Please analyze this image and provide a title and detailed description."
    );
    assert_eq!(text_of(parts[0].get("text").unwrap()), DESCRIPTION_PROMPT);
    assert_eq!(keys(&parts[1]), vec!["type", "image_url"]);
    assert_eq!(text_of(parts[1].get("type").unwrap()), "image_url");
    let image = parts[1].get("image_url").unwrap();
    assert_eq!(keys(image), vec!["url"]);
    assert_eq!(text_of(image.get("url").unwrap()), "https://example.com/cat.png");
}

#[test]
fn test_description_request_overrides() {
    let mut params = ImageDescriptionParams::new("https://example.com/cat.png");
    params.model = Some("gpt-4-vision".to_string());
    params.prompt = Some("What is this?".to_string());
    params.max_tokens = Some(100);
    let body = description_request(&params);
    assert_eq!(text_of(body.get("model").unwrap()), "gpt-4-vision");
    assert_eq!(unsigned_of(body.get("max_tokens").unwrap()), 100);
    let messages = items_of(body.get("messages").unwrap());
    let parts = items_of(messages[0].get("content").unwrap());
    assert_eq!(text_of(parts[0].get("text").unwrap()), "What is this?");
}

#[test]
fn test_object_params_prefix_prompt() {
    let params = object_params("List three colors");
    assert_eq!(params.prompt, "Respond with only valid JSON. List three colors");
    assert!(params.system.is_none());
    assert!(params.model.is_none());
    assert!(params.temperature.is_none());
    assert!(params.max_tokens.is_none());
    assert!(params.stop.is_none());
}

#[test]
fn test_endpoint_urls() {
    let config = GatewayConfig::new("k");
    assert_eq!(
        endpoint_url(&config, CHAT_COMPLETIONS_PATH),
        "https://ai-gateway.vercel.sh/v1/chat/completions"
    );
    assert_eq!(
        endpoint_url(&config, EMBEDDINGS_PATH),
        "https://ai-gateway.vercel.sh/v1/embeddings"
    );
    let config = GatewayConfig::new("k").base_url("http://localhost:8080");
    assert_eq!(
        endpoint_url(&config, IMAGE_GENERATIONS_PATH),
        "http://localhost:8080/images/generations"
    );
}

#[test]
fn test_bearer_token() {
    assert_eq!(bearer_token("abc123"), "Bearer abc123");
}

#[test]
fn test_get_finds_first_member() {
    let body = text_request_for(&TextGenerationParams::new("x"), "m", true, false);
    assert!(body.get("model").is_some());
    assert!(body.get("models").is_none());
    assert!(body.get("").is_none());
    assert!(JsonValue::Null.get("model").is_none());
    assert!(JsonValue::text("model").get("model").is_none());
}

#[test]
fn test_authorization_for_keys() {
    assert_eq!(authorization("abc123"), Ok("Bearer abc123".to_string()));
    assert_eq!(authorization(""), Ok("Bearer ".to_string()));
    assert_eq!(authorization("tab\tkey"), Ok("Bearer tab\tkey".to_string()));
    assert_eq!(authorization("cl\u{e9}"), Ok("Bearer cl\u{e9}".to_string()));
    assert_eq!(
        authorization("two\nlines"),
        Err(GatewayError::ConfigError("failed to parse header value".to_string()))
    );
    assert_eq!(
        authorization("del\u{7f}"),
        Err(GatewayError::ConfigError("failed to parse header value".to_string()))
    );
    assert_eq!(
        authorization("nul\u{0}"),
        Err(GatewayError::ConfigError("failed to parse header value".to_string()))
    );
}
