//! Searching, trimming and numbers in text.

use elizaos_plugin_gateway::config::{is_reasoning_name, parse_count};
use elizaos_plugin_gateway::error::decimal_text;
use elizaos_plugin_gateway::text::{
    chars_of, contains, is_whitespace, matches_at, same_text, strip_leading, strip_trailing, trim,
};
use elizaos_plugin_gateway::{EnvSettings, GatewayConfig, GatewayError};

fn chars(s: &str) -> Vec<char> {
    s.chars().collect()
}

#[test]
fn test_chars_of_text() {
    assert_eq!(chars_of("a\u{e9}\u{1f600}"), vec!['a', '\u{e9}', '\u{1f600}']);
    assert!(chars_of("").is_empty());
}

#[test]
fn test_matches_at_positions() {
    let text = chars("gpt-5-mini");
    assert!(matches_at(&text, &chars("gpt"), 0));
    assert!(matches_at(&text, &chars("mini"), 6));
    assert!(!matches_at(&text, &chars("mini"), 7));
    assert!(!matches_at(&text, &chars("mini"), 5));
    assert!(matches_at(&text, &chars(""), 10));
    assert!(!matches_at(&text, &chars(""), 11));
    assert!(!matches_at(&text, &chars("gpt-5-mini-x"), 0));
}

#[test]
fn test_contains_agrees_with_std() {
    let texts = ["", "a", "o1", "xo1x", "gpt-4o", "model-o3", "aaa", "abcabd", "\u{e9}o1"];
    let patterns = ["", "a", "o1", "o3", "aa", "abd", "abcabdx", "\u{e9}"];
    for text in texts {
        for pattern in patterns {
            assert_eq!(contains(&chars(text), &chars(pattern)), text.contains(pattern));
        }
    }
}

#[test]
fn test_same_text() {
    assert!(same_text("", ""));
    assert!(same_text("[DONE]", "[DONE]"));
    assert!(!same_text("[DONE]", "[DONE] "));
    assert!(!same_text("[DONE]", "[done]"));
    assert!(!same_text("ab", "ba"));
}

#[test]
fn test_whitespace_agrees_with_std_for_every_character() {
    let mut code: u32 = 0;
    while code <= 0x10ffff {
        if let Some(c) = char::from_u32(code) {
            assert_eq!(is_whitespace(c), c.is_whitespace());
        }
        code += 1;
    }
}

#[test]
fn test_trim_agrees_with_std() {
    let samples = [
        "",
        " ",
        "a",
        "  a  ",
        "\t\n a b \r\n",
        "\u{a0}x\u{3000}",
        "\u{2003}\u{2028}",
        "x \u{200b}",
        "\u{feff}x",
    ];
    for sample in samples {
        assert_eq!(trim(sample), sample.trim());
    }
    assert_eq!(trim("  Sunset \n"), "Sunset");
}

#[test]
fn test_strip_leading_and_trailing() {
    assert_eq!(strip_leading("```json{}", "```json"), "{}");
    assert_eq!(strip_leading("``````x", "```"), "x");
    assert_eq!(strip_leading("x```", "```"), "x```");
    assert_eq!(strip_leading("abc", ""), "abc");
    assert_eq!(strip_leading("aaa", "a"), "");
    assert_eq!(strip_trailing("{}```", "```"), "{}");
    assert_eq!(strip_trailing("x``````", "```"), "x");
    assert_eq!(strip_trailing("```x", "```"), "```x");
    assert_eq!(strip_trailing("abc", ""), "abc");
    assert_eq!(strip_trailing("aaaa", "aa"), "");
    assert_eq!(strip_trailing("aaa", "aa"), "a");
}

#[test]
fn test_parse_count_agrees_with_std() {
    let samples = [
        "0",
        "7",
        "1536",
        "+12",
        "007",
        "",
        "+",
        "-1",
        "-0",
        "12a",
        " 12",
        "12 ",
        "1_000",
        "++1",
        "1+",
        "\u{661}",
        "18446744073709551615",
        "18446744073709551616",
        "99999999999999999999999",
        "4294967295",
        "4294967296",
    ];
    for sample in samples {
        assert_eq!(parse_count(sample), sample.parse::<usize>().ok());
    }
    assert_eq!(parse_count("3072"), Some(3072));
    assert_eq!(parse_count("abc"), None);
}

#[test]
fn test_decimal_text_of_statuses() {
    assert_eq!(decimal_text(0), "0");
    assert_eq!(decimal_text(7), "7");
    assert_eq!(decimal_text(10), "10");
    assert_eq!(decimal_text(429), "429");
    assert_eq!(decimal_text(65535), "65535");
}

#[test]
fn test_error_messages() {
    assert_eq!(GatewayError::HttpError("timed out".to_string()).message(), "HTTP error: timed out");
    assert_eq!(
        GatewayError::ApiError { status: 404, message: "not found".to_string() }.message(),
        "API error (404): not found"
    );
    assert_eq!(
        GatewayError::ConfigError("missing key".to_string()).message(),
        "Configuration error: missing key"
    );
    assert_eq!(
        GatewayError::ParseError("invalid json".to_string()).message(),
        "Parse error: invalid json"
    );
    assert_eq!(GatewayError::EmptyResponse.message(), "Empty response from API");
    assert_eq!(GatewayError::JsonError("bad shape".to_string()).message(), "JSON error: bad shape");
}

#[test]
fn test_error_json_from_serde() {
    let serde_err = serde_json::from_str::<serde_json::Value>("invalid").unwrap_err();
    let err = GatewayError::JsonError(serde_err.to_string());
    let display = err.message();
    assert!(display.contains("JSON error"));
}

#[test]
fn test_reasoning_names_are_found_anywhere() {
    assert!(is_reasoning_name("gpt-5-turbo"));
    assert!(is_reasoning_name("openai/o3"));
    assert!(is_reasoning_name("xo1x"));
    assert!(!is_reasoning_name("gpt-4o"));
    assert!(!is_reasoning_name("GPT-5"));
    assert!(!is_reasoning_name(""));
    assert!(!is_reasoning_name("o"));
}

fn settings(key: Option<&str>) -> EnvSettings {
    EnvSettings {
        api_key: key.map(|k| k.to_string()),
        api_key_fallback: None,
        oidc_token: None,
        base_url: None,
        small_model: None,
        large_model: None,
        embedding_model: None,
        embedding_dimensions: None,
    }
}

#[test]
fn test_from_env_with_key_only_gives_defaults() {
    let config = GatewayConfig::from_env(&settings(Some("secret"))).unwrap();
    assert_eq!(config.api_key, "secret");
    assert_eq!(config.base_url, "https://ai-gateway.vercel.sh/v1");
    assert_eq!(config.large_model, "gpt-5");
    assert_eq!(config.small_model, "gpt-5-mini");
    assert_eq!(config.embedding_model, "text-embedding-3-small");
    assert_eq!(config.image_model, "dall-e-3");
    assert_eq!(config.embedding_dimensions, 1536);
    assert_eq!(config.timeout_secs, 60);
}

#[test]
fn test_from_env_key_precedence() {
    let mut env = settings(Some("first"));
    env.api_key_fallback = Some("second".to_string());
    env.oidc_token = Some("third".to_string());
    assert_eq!(GatewayConfig::from_env(&env).unwrap().api_key, "first");
    env.api_key = None;
    assert_eq!(GatewayConfig::from_env(&env).unwrap().api_key, "second");
    env.api_key = Some(String::new());
    assert_eq!(GatewayConfig::from_env(&env).unwrap().api_key, "second");
    env.api_key_fallback = Some(String::new());
    assert_eq!(GatewayConfig::from_env(&env).unwrap().api_key, "third");
    env.oidc_token = Some(String::new());
    assert_eq!(
        GatewayConfig::from_env(&env).map(|c| c.api_key),
        Err(GatewayError::ConfigError(
            "AI_GATEWAY_API_KEY, AIGATEWAY_API_KEY, or VERCEL_OIDC_TOKEN is required".to_string()
        ))
    );
}

#[test]
fn test_from_env_overrides() {
    let mut env = settings(Some("k"));
    env.base_url = Some("https://proxy.example/v1".to_string());
    env.small_model = Some("small".to_string());
    env.large_model = Some("large".to_string());
    env.embedding_model = Some("embed".to_string());
    env.embedding_dimensions = Some("3072".to_string());
    let config = GatewayConfig::from_env(&env).unwrap();
    assert_eq!(config.base_url, "https://proxy.example/v1");
    assert_eq!(config.small_model, "small");
    assert_eq!(config.large_model, "large");
    assert_eq!(config.embedding_model, "embed");
    assert_eq!(config.embedding_dimensions, 3072);
    assert_eq!(config.image_model, "dall-e-3");
}

#[test]
fn test_from_env_ignores_dimensions_that_are_no_count() {
    let mut env = settings(Some("k"));
    env.embedding_dimensions = Some("many".to_string());
    assert_eq!(GatewayConfig::from_env(&env).unwrap().embedding_dimensions, 1536);
    env.embedding_dimensions = Some("-5".to_string());
    assert_eq!(GatewayConfig::from_env(&env).unwrap().embedding_dimensions, 1536);
    env.embedding_dimensions = Some(String::new());
    assert_eq!(GatewayConfig::from_env(&env).unwrap().embedding_dimensions, 1536);
}
