//! The value objects of the gateway client: configuration, the parameters of
//! each operation, the shapes of the gateway's answers and the results handed
//! to callers.
//!
//! Real numbers are carried as IEEE 754 single-precision bit patterns in a
//! `u32`, so that every value here is a plain integer, string or list.

use vstd::prelude::*;

verus! {

/// Pixel dimensions of a generated image.
#[derive(Debug, Clone, Copy, PartialEq, Eq, Structural)]
pub enum ImageSize {
    Size256,
    Size512,
    Size1024,
    Size1792x1024,
    Size1024x1792,
}

impl ImageSize {
    /// The size written as width, `x`, height.
    pub open spec fn token(self) -> Seq<char> {
        match self {
            ImageSize::Size256 => "256x256"@,
            ImageSize::Size512 => "512x512"@,
            ImageSize::Size1024 => "1024x1024"@,
            ImageSize::Size1792x1024 => "1792x1024"@,
            ImageSize::Size1024x1792 => "1024x1792"@,
        }
    }

    /// The canonical text of the size, as the gateway expects it.
    pub fn as_str(&self) -> (s: &'static str)
        ensures
            s@ == self.token(),
    {
        match self {
            ImageSize::Size256 => "256x256",
            ImageSize::Size512 => "512x512",
            ImageSize::Size1024 => "1024x1024",
            ImageSize::Size1792x1024 => "1792x1024",
            ImageSize::Size1024x1792 => "1024x1792",
        }
    }
}

impl Default for ImageSize {
    fn default() -> (size: Self)
        ensures
            size == ImageSize::Size1024,
    {
        ImageSize::Size1024
    }
}

/// Rendering quality of a generated image.
#[derive(Debug, Clone, Copy, PartialEq, Eq, Structural)]
pub enum ImageQuality {
    Standard,
    Hd,
}

impl ImageQuality {
    /// The quality as a lower-case word.
    pub open spec fn token(self) -> Seq<char> {
        match self {
            ImageQuality::Standard => "standard"@,
            ImageQuality::Hd => "hd"@,
        }
    }

    /// The canonical text of the quality, as the gateway expects it.
    pub fn as_str(&self) -> (s: &'static str)
        ensures
            s@ == self.token(),
    {
        match self {
            ImageQuality::Standard => "standard",
            ImageQuality::Hd => "hd",
        }
    }
}

impl Default for ImageQuality {
    fn default() -> (quality: Self)
        ensures
            quality == ImageQuality::Standard,
    {
        ImageQuality::Standard
    }
}

/// Rendering style of a generated image.
#[derive(Debug, Clone, Copy, PartialEq, Eq, Structural)]
pub enum ImageStyle {
    Vivid,
    Natural,
}

impl ImageStyle {
    /// The style as a lower-case word.
    pub open spec fn token(self) -> Seq<char> {
        match self {
            ImageStyle::Vivid => "vivid"@,
            ImageStyle::Natural => "natural"@,
        }
    }

    /// The canonical text of the style, as the gateway expects it.
    pub fn as_str(&self) -> (s: &'static str)
        ensures
            s@ == self.token(),
    {
        match self {
            ImageStyle::Vivid => "vivid",
            ImageStyle::Natural => "natural",
        }
    }
}

impl Default for ImageStyle {
    fn default() -> (style: Self)
        ensures
            style == ImageStyle::Vivid,
    {
        ImageStyle::Vivid
    }
}

/// What the client needs to know about the gateway it talks to.
#[derive(Debug, Clone)]
pub struct GatewayConfig {
    /// API key for authentication.
    pub api_key: String,
    /// Base URL for API requests.
    pub base_url: String,
    /// Model for embeddings.
    pub embedding_model: String,
    /// Embedding dimensions.
    pub embedding_dimensions: usize,
    /// Model for text generation (large).
    pub large_model: String,
    /// Model for text generation (small).
    pub small_model: String,
    /// Model for image generation.
    pub image_model: String,
    /// Request timeout in seconds.
    pub timeout_secs: u64,
}

/// A configuration as a mathematical value.
pub struct ConfigView {
    pub api_key: Seq<char>,
    pub base_url: Seq<char>,
    pub embedding_model: Seq<char>,
    pub embedding_dimensions: nat,
    pub large_model: Seq<char>,
    pub small_model: Seq<char>,
    pub image_model: Seq<char>,
    pub timeout_secs: nat,
}

impl ConfigView {
    /// The configuration that a bare API key gives.
    pub open spec fn with_defaults(api_key: Seq<char>) -> ConfigView {
        ConfigView {
            api_key,
            base_url: "https://ai-gateway.vercel.sh/v1"@,
            embedding_model: "text-embedding-3-small"@,
            embedding_dimensions: 1536,
            large_model: "gpt-5"@,
            small_model: "gpt-5-mini"@,
            image_model: "dall-e-3"@,
            timeout_secs: 60,
        }
    }
}

impl View for GatewayConfig {
    type V = ConfigView;

    open spec fn view(&self) -> ConfigView {
        ConfigView {
            api_key: self.api_key@,
            base_url: self.base_url@,
            embedding_model: self.embedding_model@,
            embedding_dimensions: self.embedding_dimensions as nat,
            large_model: self.large_model@,
            small_model: self.small_model@,
            image_model: self.image_model@,
            timeout_secs: self.timeout_secs as nat,
        }
    }
}

impl GatewayConfig {
    /// Create a new configuration with required API key.
    pub fn new(api_key: &str) -> (config: Self)
        ensures
            config@ == ConfigView::with_defaults(api_key@),
    {
        Self {
            api_key: api_key.to_owned(),
            base_url: "https://ai-gateway.vercel.sh/v1".to_owned(),
            embedding_model: "text-embedding-3-small".to_owned(),
            embedding_dimensions: 1536,
            large_model: "gpt-5".to_owned(),
            small_model: "gpt-5-mini".to_owned(),
            image_model: "dall-e-3".to_owned(),
            timeout_secs: 60,
        }
    }

    /// Set the base URL.
    pub fn base_url(self, url: &str) -> (config: Self)
        ensures
            config@ == (ConfigView { base_url: url@, ..self@ }),
    {
        let mut config = self;
        config.base_url = url.to_owned();
        config
    }

    /// Set the large model.
    pub fn large_model(self, model: &str) -> (config: Self)
        ensures
            config@ == (ConfigView { large_model: model@, ..self@ }),
    {
        let mut config = self;
        config.large_model = model.to_owned();
        config
    }

    /// Set the small model.
    pub fn small_model(self, model: &str) -> (config: Self)
        ensures
            config@ == (ConfigView { small_model: model@, ..self@ }),
    {
        let mut config = self;
        config.small_model = model.to_owned();
        config
    }

    /// Set the embedding model.
    pub fn embedding_model(self, model: &str) -> (config: Self)
        ensures
            config@ == (ConfigView { embedding_model: model@, ..self@ }),
    {
        let mut config = self;
        config.embedding_model = model.to_owned();
        config
    }

    /// Set embedding dimensions.
    pub fn embedding_dimensions(self, dims: usize) -> (config: Self)
        ensures
            config@ == (ConfigView { embedding_dimensions: dims as nat, ..self@ }),
    {
        let mut config = self;
        config.embedding_dimensions = dims;
        config
    }
}

/// The texts of a list of strings.
pub open spec fn texts(list: Seq<String>) -> Seq<Seq<char>> {
    Seq::new(list.len(), |i: int| list[i]@)
}

/// The text of an optional string.
pub open spec fn opt_text(s: Option<String>) -> Option<Seq<char>> {
    match s {
        Some(s) => Some(s@),
        None => None,
    }
}

/// Parameters for text generation. Every field but the prompt may be left
/// unset, each on its own.
#[derive(Debug, Clone)]
pub struct TextGenerationParams {
    pub prompt: String,
    pub system: Option<String>,
    pub model: Option<String>,
    /// Sampling temperature, as the bits of a single-precision number.
    pub temperature: Option<u32>,
    pub max_tokens: Option<u32>,
    /// Frequency penalty, as the bits of a single-precision number.
    pub frequency_penalty: Option<u32>,
    /// Presence penalty, as the bits of a single-precision number.
    pub presence_penalty: Option<u32>,
    pub stop: Option<Vec<String>>,
}

/// Text generation parameters as a mathematical value.
pub struct TextParamsView {
    pub prompt: Seq<char>,
    pub system: Option<Seq<char>>,
    pub model: Option<Seq<char>>,
    pub temperature: Option<u32>,
    pub max_tokens: Option<u32>,
    pub frequency_penalty: Option<u32>,
    pub presence_penalty: Option<u32>,
    pub stop: Option<Seq<Seq<char>>>,
}

impl TextParamsView {
    /// Parameters with the prompt alone.
    pub open spec fn bare(prompt: Seq<char>) -> TextParamsView {
        TextParamsView {
            prompt,
            system: None,
            model: None,
            temperature: None,
            max_tokens: None,
            frequency_penalty: None,
            presence_penalty: None,
            stop: None,
        }
    }
}

impl View for TextGenerationParams {
    type V = TextParamsView;

    open spec fn view(&self) -> TextParamsView {
        TextParamsView {
            prompt: self.prompt@,
            system: opt_text(self.system),
            model: opt_text(self.model),
            temperature: self.temperature,
            max_tokens: self.max_tokens,
            frequency_penalty: self.frequency_penalty,
            presence_penalty: self.presence_penalty,
            stop: match self.stop {
                Some(list) => Some(texts(list@)),
                None => None,
            },
        }
    }
}

impl TextGenerationParams {
    /// Parameters with the prompt alone.
    pub fn new(prompt: &str) -> (params: Self)
        ensures
            params@ == TextParamsView::bare(prompt@),
    {
        Self {
            prompt: prompt.to_owned(),
            system: None,
            model: None,
            temperature: None,
            max_tokens: None,
            frequency_penalty: None,
            presence_penalty: None,
            stop: None,
        }
    }

    /// Set the system message.
    pub fn system(self, system: &str) -> (params: Self)
        ensures
            params@ == (TextParamsView { system: Some(system@), ..self@ }),
    {
        let mut params = self;
        params.system = Some(system.to_owned());
        params
    }

    /// Set the model, overriding the configured default.
    pub fn model(self, model: &str) -> (params: Self)
        ensures
            params@ == (TextParamsView { model: Some(model@), ..self@ }),
    {
        let mut params = self;
        params.model = Some(model.to_owned());
        params
    }

    /// Set the sampling temperature, given as single-precision bits.
    pub fn temperature(self, temp: u32) -> (params: Self)
        ensures
            params@ == (TextParamsView { temperature: Some(temp), ..self@ }),
    {
        let mut params = self;
        params.temperature = Some(temp);
        params
    }

    /// Set the limit on generated tokens.
    pub fn max_tokens(self, max: u32) -> (params: Self)
        ensures
            params@ == (TextParamsView { max_tokens: Some(max), ..self@ }),
    {
        let mut params = self;
        params.max_tokens = Some(max);
        params
    }
}

/// Parameters for creating an embedding.
#[derive(Debug, Clone)]
pub struct EmbeddingParams {
    pub text: String,
    pub model: Option<String>,
    pub dimensions: Option<usize>,
}

/// Embedding parameters as a mathematical value.
pub struct EmbeddingParamsView {
    pub text: Seq<char>,
    pub model: Option<Seq<char>>,
    pub dimensions: Option<usize>,
}

impl View for EmbeddingParams {
    type V = EmbeddingParamsView;

    open spec fn view(&self) -> EmbeddingParamsView {
        EmbeddingParamsView {
            text: self.text@,
            model: opt_text(self.model),
            dimensions: self.dimensions,
        }
    }
}

impl EmbeddingParams {
    /// Parameters with the text alone.
    pub fn new(text: &str) -> (params: Self)
        ensures
            params@ == (EmbeddingParamsView { text: text@, model: None, dimensions: None }),
    {
        Self { text: text.to_owned(), model: None, dimensions: None }
    }
}

/// Parameters for image generation.
#[derive(Debug, Clone)]
pub struct ImageGenerationParams {
    /// The prompt for image generation.
    pub prompt: String,
    /// Model to use.
    pub model: Option<String>,
    /// Number of images to generate.
    pub n: Option<u32>,
    /// Image size.
    pub size: Option<ImageSize>,
    /// Image quality.
    pub quality: Option<ImageQuality>,
    /// Image style.
    pub style: Option<ImageStyle>,
}

/// Image generation parameters as a mathematical value.
pub struct ImageParamsView {
    pub prompt: Seq<char>,
    pub model: Option<Seq<char>>,
    pub n: Option<u32>,
    pub size: Option<ImageSize>,
    pub quality: Option<ImageQuality>,
    pub style: Option<ImageStyle>,
}

impl View for ImageGenerationParams {
    type V = ImageParamsView;

    open spec fn view(&self) -> ImageParamsView {
        ImageParamsView {
            prompt: self.prompt@,
            model: opt_text(self.model),
            n: self.n,
            size: self.size,
            quality: self.quality,
            style: self.style,
        }
    }
}

impl ImageGenerationParams {
    /// Create new image generation parameters.
    pub fn new(prompt: &str) -> (params: Self)
        ensures
            params@ == (ImageParamsView {
                prompt: prompt@,
                model: None,
                n: None,
                size: None,
                quality: None,
                style: None,
            }),
    {
        Self {
            prompt: prompt.to_owned(),
            model: None,
            n: None,
            size: None,
            quality: None,
            style: None,
        }
    }
}

/// Parameters for describing an image.
#[derive(Debug, Clone)]
pub struct ImageDescriptionParams {
    pub image_url: String,
    pub model: Option<String>,
    pub prompt: Option<String>,
    pub max_tokens: Option<u32>,
}

/// Image description parameters as a mathematical value.
pub struct DescriptionParamsView {
    pub image_url: Seq<char>,
    pub model: Option<Seq<char>>,
    pub prompt: Option<Seq<char>>,
    pub max_tokens: Option<u32>,
}

impl View for ImageDescriptionParams {
    type V = DescriptionParamsView;

    open spec fn view(&self) -> DescriptionParamsView {
        DescriptionParamsView {
            image_url: self.image_url@,
            model: opt_text(self.model),
            prompt: opt_text(self.prompt),
            max_tokens: self.max_tokens,
        }
    }
}

impl ImageDescriptionParams {
    /// Parameters with the image reference alone.
    pub fn new(image_url: &str) -> (params: Self)
        ensures
            params@ == (DescriptionParamsView {
                image_url: image_url@,
                model: None,
                prompt: None,
                max_tokens: None,
            }),
    {
        Self { image_url: image_url.to_owned(), model: None, prompt: None, max_tokens: None }
    }
}

/// One message of a conversation.
#[derive(Debug, Clone)]
pub struct ChatMessage {
    pub role: String,
    pub content: Option<String>,
}

/// One ranked answer of a chat completion.
#[derive(Debug, Clone)]
pub struct ChatCompletionChoice {
    pub index: u32,
    pub message: ChatMessage,
    pub finish_reason: Option<String>,
}

/// The gateway's answer to a chat completion request. The choices come in the
/// gateway's ranking; the first is the one that counts.
#[derive(Debug, Clone)]
pub struct ChatCompletionResponse {
    pub id: String,
    pub object: String,
    pub created: u64,
    pub model: String,
    pub choices: Vec<ChatCompletionChoice>,
}

/// One embedding vector, its components as single-precision bits.
#[derive(Debug, Clone)]
pub struct EmbeddingData {
    pub embedding: Vec<u32>,
    pub index: u32,
}

/// The gateway's answer to an embedding request.
#[derive(Debug, Clone)]
pub struct EmbeddingResponse {
    pub data: Vec<EmbeddingData>,
    pub model: String,
}

/// One generated image as the gateway reports it.
#[derive(Debug, Clone)]
pub struct ImageData {
    pub url: Option<String>,
    pub revised_prompt: Option<String>,
}

/// The gateway's answer to an image generation request.
#[derive(Debug, Clone)]
pub struct ImageGenerationResponse {
    pub created: u64,
    pub data: Vec<ImageData>,
}

/// One generated image as handed to the caller.
#[derive(Debug, Clone, PartialEq)]
pub struct ImageGenerationResult {
    pub url: Option<String>,
    pub revised_prompt: Option<String>,
}

/// Title and description of an image.
#[derive(Debug, Clone, PartialEq)]
pub struct ImageDescriptionResult {
    pub title: String,
    pub description: String,
}

} // verus!
