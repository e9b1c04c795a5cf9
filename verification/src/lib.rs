//! The request shaping and response decoding of a client for an inference
//! gateway that speaks the OpenAI-compatible JSON-over-HTTP protocol.
//!
//! The library decides which fields a request for a given model may carry,
//! assembles the request bodies of the operations (text generation, streamed
//! text generation, embedding, image generation, image description), turns an
//! answer that reports failure into a typed error, projects a successful
//! answer onto the caller's result, and decodes a streamed answer chunk by
//! chunk. It sends and receives nothing itself.

use vstd::prelude::*;

pub mod config;
pub mod error;
pub mod json;
pub mod request;
pub mod response;
pub mod stream;
pub mod text;
pub mod title;
pub mod types;

pub use config::{model_supports_temperature, EnvSettings};
pub use error::GatewayError;
pub use json::{JsonField, JsonValue};
pub use stream::{StreamDecoder, StreamEvent};
pub use types::{
    EmbeddingParams, GatewayConfig, ImageDescriptionParams, ImageDescriptionResult,
    ImageGenerationParams, ImageGenerationResult, TextGenerationParams,
};

verus! {

/// The name under which the client registers.
pub const PLUGIN_NAME: &'static str = "gateway";

/// What the client offers, in a sentence.
pub const PLUGIN_DESCRIPTION: &'static str =
    "Vercel AI Gateway plugin with text, embedding, and image generation support";

/// The version of the client.
pub const PLUGIN_VERSION: &'static str = "0.1.0";

} // verus!
