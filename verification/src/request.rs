//! The request bodies that the gateway expects, one builder per operation.
//!
//! A body is a JSON object whose members stand in a fixed order: first what
//! every request of the operation carries, then the optional members, each
//! present exactly when the caller supplied its value. For text generation the
//! optional members depend on whether the model takes sampling controls. A
//! model that does gets each control that was supplied, under its own name. A
//! reasoning-only model gets none of them: the controls are dropped without
//! notice, and a supplied token limit goes out as `max_completion_tokens`.

use vstd::prelude::*;
use vstd::string::StringExecFns;
use vstd::utf8::encode_utf8;
use crate::error::{ErrorView, GatewayError};
use crate::config::{model_supports_temperature, supports_sampling};
use crate::json::{
    fields_model, holds_key, items_model, lemma_holds_key_add, push_field, push_item, Json,
    JsonField, JsonValue,
};
use crate::types::{
    DescriptionParamsView, EmbeddingParams, EmbeddingParamsView, GatewayConfig,
    ImageDescriptionParams, ImageGenerationParams, ImageParamsView, TextGenerationParams,
    TextParamsView,
};

verus! {

/// The path of the chat completion endpoint, below the base URL.
pub const CHAT_COMPLETIONS_PATH: &'static str = "/chat/completions";

/// The path of the embedding endpoint, below the base URL.
pub const EMBEDDINGS_PATH: &'static str = "/embeddings";

/// The path of the image generation endpoint, below the base URL.
pub const IMAGE_GENERATIONS_PATH: &'static str = "/images/generations";

/// The model that describes images where the caller names none.
pub const DESCRIPTION_MODEL: &'static str = "gpt-5-mini";

/// The instruction sent with an image where the caller gives none.
pub const DESCRIPTION_PROMPT: &'static str =
    "Please analyze this image and provide a title and detailed description.";

/// The token limit of an image description where the caller gives none.
pub const DESCRIPTION_MAX_TOKENS: u32 = 8192;

/// What is put before the prompt of a structured-object request.
pub const OBJECT_INSTRUCTION: &'static str = "Respond with only valid JSON. ";

/// The model of a request: the caller's choice, or else the default.
pub open spec fn chosen(choice: Option<Seq<char>>, default: Seq<char>) -> Seq<char> {
    match choice {
        Some(model) => model,
        None => default,
    }
}

/// A member that is present exactly when its value was supplied.
pub open spec fn optional(name: Seq<char>, value: Option<Json>) -> Seq<(Seq<char>, Json)> {
    match value {
        Some(v) => seq![(name, v)],
        None => Seq::empty(),
    }
}

/// A real number, where one was supplied.
pub open spec fn sampling(bits: Option<u32>) -> Option<Json> {
    match bits {
        Some(b) => Some(Json::Float32(b)),
        None => None,
    }
}

/// A count, where one was supplied.
pub open spec fn quantity(n: Option<u32>) -> Option<Json> {
    match n {
        Some(n) => Some(Json::Unsigned(n as u64)),
        None => None,
    }
}

/// A list of strings, where one was supplied.
pub open spec fn text_list(list: Option<Seq<Seq<char>>>) -> Option<Json> {
    match list {
        Some(l) => Some(Json::Array(Seq::new(l.len(), |i: int| Json::Text(l[i])))),
        None => None,
    }
}

/// One message of a conversation.
pub open spec fn message(role: Seq<char>, content: Seq<char>) -> Json {
    Json::Object(seq![("role"@, Json::Text(role)), ("content"@, Json::Text(content))])
}

/// The conversation of a text request: the system message, if the caller
/// supplied one, then exactly one user message with the prompt.
pub open spec fn conversation(params: TextParamsView) -> Seq<Json> {
    match params.system {
        Some(system) => seq![message("system"@, system), message("user"@, params.prompt)],
        None => seq![message("user"@, params.prompt)],
    }
}

/// The optional members of a text request.
pub open spec fn sampling_members(params: TextParamsView, capable: bool) -> Seq<(Seq<char>, Json)> {
    if capable {
        optional("temperature"@, sampling(params.temperature)) + optional(
            "frequency_penalty"@,
            sampling(params.frequency_penalty),
        ) + optional("presence_penalty"@, sampling(params.presence_penalty)) + optional(
            "stop"@,
            text_list(params.stop),
        ) + optional("max_tokens"@, quantity(params.max_tokens))
    } else {
        optional("max_completion_tokens"@, quantity(params.max_tokens))
    }
}

/// The members that every text request carries.
pub open spec fn text_base(params: TextParamsView, model: Seq<char>, stream: bool) -> Seq<
    (Seq<char>, Json),
> {
    let base = seq![
        ("model"@, Json::Text(model)),
        ("messages"@, Json::Array(conversation(params))),
    ];
    if stream {
        base.push(("stream"@, Json::Bool(true)))
    } else {
        base
    }
}

/// The body of a text generation request for a model of known capability.
pub open spec fn text_payload(params: TextParamsView, model: Seq<char>, capable: bool, stream: bool) -> Json {
    Json::Object(text_base(params, model, stream) + sampling_members(params, capable))
}

/// The body of an embedding request.
pub open spec fn embedding_payload(params: EmbeddingParamsView, default_model: Seq<char>) -> Json {
    Json::Object(
        seq![
            ("model"@, Json::Text(chosen(params.model, default_model))),
            ("input"@, Json::Text(params.text)),
        ] + optional(
            "dimensions"@,
            match params.dimensions {
                Some(d) => Some(Json::Unsigned(d as u64)),
                None => None,
            },
        ),
    )
}

/// The body of an image generation request.
pub open spec fn image_payload(params: ImageParamsView, default_model: Seq<char>) -> Json {
    Json::Object(
        seq![
            ("model"@, Json::Text(chosen(params.model, default_model))),
            ("prompt"@, Json::Text(params.prompt)),
        ] + optional("n"@, quantity(params.n)) + optional(
            "size"@,
            match params.size {
                Some(s) => Some(Json::Text(s.token())),
                None => None,
            },
        ) + optional(
            "quality"@,
            match params.quality {
                Some(q) => Some(Json::Text(q.token())),
                None => None,
            },
        ) + optional(
            "style"@,
            match params.style {
                Some(s) => Some(Json::Text(s.token())),
                None => None,
            },
        ),
    )
}

/// The body of an image description request: one user message of two parts,
/// the instruction and the image. Model, instruction and token limit fall back
/// to fixed values of their own, whatever the configuration says.
pub open spec fn description_payload(params: DescriptionParamsView) -> Json {
    let instruction = Json::Object(
        seq![
            ("type"@, Json::Text("text"@)),
            ("text"@, Json::Text(chosen(params.prompt, DESCRIPTION_PROMPT@))),
        ],
    );
    let image = Json::Object(
        seq![
            ("type"@, Json::Text("image_url"@)),
            ("image_url"@, Json::Object(seq![("url"@, Json::Text(params.image_url))])),
        ],
    );
    let user = Json::Object(
        seq![("role"@, Json::Text("user"@)), ("content"@, Json::Array(seq![instruction, image]))],
    );
    Json::Object(
        seq![
            ("model"@, Json::Text(chosen(params.model, DESCRIPTION_MODEL@))),
            ("messages"@, Json::Array(seq![user])),
            (
                "max_tokens"@,
                Json::Unsigned(
                    match params.max_tokens {
                        Some(n) => n as u64,
                        None => DESCRIPTION_MAX_TOKENS as u64,
                    },
                ),
            ),
        ],
    )
}

/// The URL of an endpoint: the base URL with the endpoint's path directly
/// behind it. Paths begin with a slash; a base URL is written without one at
/// its end.
pub fn endpoint_url(config: &GatewayConfig, path: &str) -> (url: String)
    ensures
        url@ == config@.base_url + path@,
{
    config.base_url.clone().concat(path)
}

/// The message for a key that cannot stand in a header.
pub const INVALID_HEADER: &'static str = "failed to parse header value";

/// Whether a byte may stand in the value of a header: no control character
/// but the tab.
pub open spec fn header_byte_ok(b: u8) -> bool {
    (b >= 32 && b != 127) || b == 9
}

/// Whether a text can be the value of a header: every byte of its encoding
/// may stand in one.
pub open spec fn header_text_ok(text: Seq<char>) -> bool {
    forall|i: int| 0 <= i < encode_utf8(text).len() ==> header_byte_ok(#[trigger] encode_utf8(text)[i])
}

/// `HeaderValue::from_str`: whether a text can be the value of a header, which
/// it can unless one of its bytes is a control character other than the tab.
/// The error has one fixed message.
#[verifier::external_body]
pub(crate) fn check_header_value(value: &str) -> (checked: Result<(), String>)
    ensures
        checked is Ok <==> header_text_ok(value@),
        checked matches Err(message) ==> message@ == INVALID_HEADER@,
{
    match reqwest::header::HeaderValue::from_str(value) {
        Ok(_) => Ok(()),
        Err(error) => Err(error.to_string()),
    }
}

/// The value of the `Authorization` header for an API key, or a configuration
/// error for a key with which no header can be formed.
pub fn authorization(api_key: &str) -> (value: Result<String, GatewayError>)
    ensures
        match value {
            Ok(v) => v@ == "Bearer "@ + api_key@ && header_text_ok(v@),
            Err(e) => !header_text_ok("Bearer "@ + api_key@) && e@ == ErrorView::ConfigError(
                INVALID_HEADER@,
            ),
        },
{
    let value = bearer_token(api_key);
    match check_header_value(value.as_str()) {
        Ok(_) => Ok(value),
        Err(message) => Err(GatewayError::ConfigError(message)),
    }
}

/// The value of the `Authorization` header for an API key.
pub fn bearer_token(api_key: &str) -> (value: String)
    ensures
        value@ == "Bearer "@ + api_key@,
{
    "Bearer ".to_owned().concat(api_key)
}

fn chat_message(role: &str, content: &str) -> (value: JsonValue)
    ensures
        value@ == message(role@, content@),
{
    let mut fields: Vec<JsonField> = Vec::new();
    proof {
        assert(fields_model(fields@) =~= Seq::empty());
    }
    push_field(&mut fields, "role", JsonValue::text(role));
    push_field(&mut fields, "content", JsonValue::text(content));
    proof {
        assert(fields_model(fields@) =~= seq![
            ("role"@, Json::Text(role@)),
            ("content"@, Json::Text(content@)),
        ]);
    }
    JsonValue::object(fields)
}

fn text_array(list: &Vec<String>) -> (value: JsonValue)
    ensures
        Some(value@) == text_list(Some(crate::types::texts(list@))),
{
    let mut items: Vec<JsonValue> = Vec::new();
    let n: usize = list.len();
    let mut i: usize = 0;
    proof {
        assert(items_model(items@) =~= Seq::new(0, |k: int| Json::Text(list@[k]@)));
    }
    while i < n
        invariant
            n == list@.len(),
            i <= n,
            items_model(items@) == Seq::new(i as nat, |k: int| Json::Text(list@[k]@)),
        decreases n - i,
    {
        push_item(&mut items, JsonValue::text(list[i].as_str()));
        proof {
            assert(items_model(items@) =~= Seq::new((i + 1) as nat, |k: int| Json::Text(list@[k]@)));
        }
        i = i + 1;
    }
    proof {
        let l = crate::types::texts(list@);
        assert(items_model(items@) =~= Seq::new(l.len(), |k: int| Json::Text(l[k])));
    }
    JsonValue::array(items)
}

fn push_real(fields: &mut Vec<JsonField>, name: &str, bits: Option<u32>)
    ensures
        fields_model(final(fields)@) == fields_model(old(fields)@) + optional(name@, sampling(bits)),
{
    match bits {
        Some(b) => {
            push_field(fields, name, JsonValue::Float32(b));
            proof {
                assert(fields_model(fields@) =~= fields_model(old(fields)@) + optional(
                    name@,
                    sampling(bits),
                ));
            }
        },
        None => {
            proof {
                assert(fields_model(fields@) =~= fields_model(old(fields)@) + optional(
                    name@,
                    sampling(bits),
                ));
            }
        },
    }
}

fn push_count(fields: &mut Vec<JsonField>, name: &str, n: Option<u32>)
    ensures
        fields_model(final(fields)@) == fields_model(old(fields)@) + optional(name@, quantity(n)),
{
    match n {
        Some(n) => {
            push_field(fields, name, JsonValue::Unsigned(n as u64));
        },
        None => {},
    }
    proof {
        assert(fields_model(fields@) =~= fields_model(old(fields)@) + optional(name@, quantity(n)));
    }
}

fn push_text(fields: &mut Vec<JsonField>, name: &str, text: Option<&str>)
    ensures
        fields_model(final(fields)@) == fields_model(old(fields)@) + optional(
            name@,
            match text {
                Some(t) => Some(Json::Text(t@)),
                None => None,
            },
        ),
{
    match text {
        Some(t) => {
            push_field(fields, name, JsonValue::text(t));
        },
        None => {},
    }
    proof {
        assert(fields_model(fields@) =~= fields_model(old(fields)@) + optional(
            name@,
            match text {
                Some(t) => Some(Json::Text(t@)),
                None => None,
            },
        ));
    }
}

fn conversation_items(params: &TextGenerationParams) -> (messages: Vec<JsonValue>)
    ensures
        items_model(messages@) == conversation(params@),
{
    let mut messages: Vec<JsonValue> = Vec::new();
    proof {
        assert(items_model(messages@) =~= Seq::empty());
    }
    match &params.system {
        Some(system) => {
            push_item(&mut messages, chat_message("system", system.as_str()));
        },
        None => {},
    }
    push_item(&mut messages, chat_message("user", params.prompt.as_str()));
    proof {
        assert(items_model(messages@) =~= conversation(params@));
    }
    messages
}

fn base_fields(params: &TextGenerationParams, model: &str, stream: bool) -> (fields: Vec<JsonField>)
    ensures
        fields_model(fields@) == text_base(params@, model@, stream),
{
    let messages = conversation_items(params);
    let mut fields: Vec<JsonField> = Vec::new();
    proof {
        assert(fields_model(fields@) =~= Seq::empty());
    }
    push_field(&mut fields, "model", JsonValue::text(model));
    push_field(&mut fields, "messages", JsonValue::array(messages));
    if stream {
        push_field(&mut fields, "stream", JsonValue::Bool(true));
    }
    proof {
        assert(fields_model(fields@) =~= text_base(params@, model@, stream));
    }
    fields
}

fn push_stop(fields: &mut Vec<JsonField>, stop: &Option<Vec<String>>)
    ensures
        fields_model(final(fields)@) == fields_model(old(fields)@) + optional(
            "stop"@,
            text_list(
                match *stop {
                    Some(list) => Some(crate::types::texts(list@)),
                    None => None,
                },
            ),
        ),
{
    match stop {
        Some(list) => {
            let stops = text_array(list);
            push_field(fields, "stop", stops);
        },
        None => {},
    }
    proof {
        assert(fields_model(fields@) =~= fields_model(old(fields)@) + optional(
            "stop"@,
            text_list(
                match *stop {
                    Some(list) => Some(crate::types::texts(list@)),
                    None => None,
                },
            ),
        ));
    }
}

fn push_sampling(fields: &mut Vec<JsonField>, params: &TextGenerationParams, capable: bool)
    ensures
        fields_model(final(fields)@) == fields_model(old(fields)@) + sampling_members(
            params@,
            capable,
        ),
{
    if capable {
        push_real(fields, "temperature", params.temperature);
        push_real(fields, "frequency_penalty", params.frequency_penalty);
        push_real(fields, "presence_penalty", params.presence_penalty);
        push_stop(fields, &params.stop);
        push_count(fields, "max_tokens", params.max_tokens);
    } else {
        push_count(fields, "max_completion_tokens", params.max_tokens);
    }
    proof {
        assert(fields_model(fields@) =~= fields_model(old(fields)@) + sampling_members(
            params@,
            capable,
        ));
    }
}

/// The body of a text generation request for a model of known capability.
/// `stream` asks for a streamed answer.
pub fn text_request_for(params: &TextGenerationParams, model: &str, capable: bool, stream: bool) -> (body:
    JsonValue)
    ensures
        body@ == text_payload(params@, model@, capable, stream),
{
    let mut fields = base_fields(params, model, stream);
    push_sampling(&mut fields, params, capable);
    JsonValue::object(fields)
}

/// The body of a text generation request: for the model that the caller chose,
/// or else the configured large model, with the optional members that this
/// model's capability allows.
pub fn text_request(params: &TextGenerationParams, config: &GatewayConfig) -> (body: JsonValue)
    ensures
        body@ == text_payload(
            params@,
            chosen(params@.model, config@.large_model),
            supports_sampling(chosen(params@.model, config@.large_model)),
            false,
        ),
{
    let model: &str = match &params.model {
        Some(m) => m.as_str(),
        None => config.large_model.as_str(),
    };
    let capable = model_supports_temperature(model);
    text_request_for(params, model, capable, false)
}

/// The body of a streamed text generation request: that of a text generation
/// request, with the streaming flag set.
pub fn stream_request(params: &TextGenerationParams, config: &GatewayConfig) -> (body: JsonValue)
    ensures
        body@ == text_payload(
            params@,
            chosen(params@.model, config@.large_model),
            supports_sampling(chosen(params@.model, config@.large_model)),
            true,
        ),
{
    let model: &str = match &params.model {
        Some(m) => m.as_str(),
        None => config.large_model.as_str(),
    };
    let capable = model_supports_temperature(model);
    text_request_for(params, model, capable, true)
}

/// The body of an embedding request.
pub fn embedding_request(params: &EmbeddingParams, config: &GatewayConfig) -> (body: JsonValue)
    ensures
        body@ == embedding_payload(params@, config@.embedding_model),
{
    let model: &str = match &params.model {
        Some(m) => m.as_str(),
        None => config.embedding_model.as_str(),
    };
    let mut fields: Vec<JsonField> = Vec::new();
    proof {
        assert(fields_model(fields@) =~= Seq::empty());
    }
    push_field(&mut fields, "model", JsonValue::text(model));
    push_field(&mut fields, "input", JsonValue::text(params.text.as_str()));
    match params.dimensions {
        Some(d) => {
            push_field(&mut fields, "dimensions", JsonValue::Unsigned(d as u64));
        },
        None => {},
    }
    proof {
        assert(fields_model(fields@) =~= embedding_payload(
            params@,
            config@.embedding_model,
        )->Object_0);
    }
    JsonValue::object(fields)
}

/// The body of an image generation request.
pub fn image_request(params: &ImageGenerationParams, config: &GatewayConfig) -> (body: JsonValue)
    ensures
        body@ == image_payload(params@, config@.image_model),
{
    let model: &str = match &params.model {
        Some(m) => m.as_str(),
        None => config.image_model.as_str(),
    };
    let mut fields: Vec<JsonField> = Vec::new();
    proof {
        assert(fields_model(fields@) =~= Seq::empty());
    }
    push_field(&mut fields, "model", JsonValue::text(model));
    push_field(&mut fields, "prompt", JsonValue::text(params.prompt.as_str()));
    push_count(&mut fields, "n", params.n);
    let size: Option<&str> = match &params.size {
        Some(s) => Some(s.as_str()),
        None => None,
    };
    push_text(&mut fields, "size", size);
    let quality: Option<&str> = match &params.quality {
        Some(q) => Some(q.as_str()),
        None => None,
    };
    push_text(&mut fields, "quality", quality);
    let style: Option<&str> = match &params.style {
        Some(s) => Some(s.as_str()),
        None => None,
    };
    push_text(&mut fields, "style", style);
    proof {
        assert(fields_model(fields@) =~= image_payload(params@, config@.image_model)->Object_0);
    }
    JsonValue::object(fields)
}

fn single(name: &str, value: JsonValue) -> (object: JsonValue)
    ensures
        object@ == Json::Object(seq![(name@, value@)]),
{
    let mut fields: Vec<JsonField> = Vec::new();
    proof {
        assert(fields_model(fields@) =~= Seq::empty());
    }
    push_field(&mut fields, name, value);
    proof {
        assert(fields_model(fields@) =~= seq![(name@, value@)]);
    }
    JsonValue::object(fields)
}

fn pair(first: &str, a: JsonValue, second: &str, b: JsonValue) -> (object: JsonValue)
    ensures
        object@ == Json::Object(seq![(first@, a@), (second@, b@)]),
{
    let mut fields: Vec<JsonField> = Vec::new();
    proof {
        assert(fields_model(fields@) =~= Seq::empty());
    }
    push_field(&mut fields, first, a);
    push_field(&mut fields, second, b);
    proof {
        assert(fields_model(fields@) =~= seq![(first@, a@), (second@, b@)]);
    }
    JsonValue::object(fields)
}

/// The body of an image description request.
pub fn description_request(params: &ImageDescriptionParams) -> (body: JsonValue)
    ensures
        body@ == description_payload(params@),
{
    let model: &str = match &params.model {
        Some(m) => m.as_str(),
        None => DESCRIPTION_MODEL,
    };
    let prompt: &str = match &params.prompt {
        Some(p) => p.as_str(),
        None => DESCRIPTION_PROMPT,
    };
    let max_tokens: u32 = match params.max_tokens {
        Some(n) => n,
        None => DESCRIPTION_MAX_TOKENS,
    };
    let instruction = pair("type", JsonValue::text("text"), "text", JsonValue::text(prompt));
    let image = pair(
        "type",
        JsonValue::text("image_url"),
        "image_url",
        single("url", JsonValue::text(params.image_url.as_str())),
    );
    let mut parts: Vec<JsonValue> = Vec::new();
    proof {
        assert(items_model(parts@) =~= Seq::empty());
    }
    push_item(&mut parts, instruction);
    push_item(&mut parts, image);
    proof {
        assert(items_model(parts@) =~= seq![instruction@, image@]);
    }
    let user = pair("role", JsonValue::text("user"), "content", JsonValue::array(parts));
    let mut messages: Vec<JsonValue> = Vec::new();
    proof {
        assert(items_model(messages@) =~= Seq::empty());
    }
    push_item(&mut messages, user);
    proof {
        assert(items_model(messages@) =~= seq![user@]);
    }
    let mut fields: Vec<JsonField> = Vec::new();
    proof {
        assert(fields_model(fields@) =~= Seq::empty());
    }
    push_field(&mut fields, "model", JsonValue::text(model));
    push_field(&mut fields, "messages", JsonValue::array(messages));
    push_field(&mut fields, "max_tokens", JsonValue::Unsigned(max_tokens as u64));
    proof {
        assert(fields_model(fields@) =~= description_payload(params@)->Object_0);
    }
    JsonValue::object(fields)
}

/// The parameters of a structured-object request: the prompt with the demand
/// for JSON-only output before it, and nothing else set.
pub fn object_params(prompt: &str) -> (params: TextGenerationParams)
    ensures
        params@ == TextParamsView::bare(OBJECT_INSTRUCTION@ + prompt@),
{
    let full = OBJECT_INSTRUCTION.to_owned().concat(prompt);
    TextGenerationParams::new(full.as_str())
}

/// An optional member holds its own name, and that only where its value was
/// supplied.
pub proof fn lemma_holds_key_optional(name: Seq<char>, value: Option<Json>, key: Seq<char>)
    ensures
        holds_key(optional(name, value), key) == (value is Some && name == key),
{
    let members = optional(name, value);
    if value is Some && name == key {
        assert(members[0].0 == key);
    }
}

/// The names of the members that every text request carries: `model` and
/// `messages`, and `stream` where a streamed answer is asked for.
pub proof fn lemma_text_base_keys(params: TextParamsView, model: Seq<char>, stream: bool, key: Seq<char>)
    ensures
        holds_key(text_base(params, model, stream), key) == (key == "model"@ || key == "messages"@
            || (stream && key == "stream"@)),
{
    let base = text_base(params, model, stream);
    if key == "model"@ {
        assert(base[0].0 == key);
    }
    if key == "messages"@ {
        assert(base[1].0 == key);
    }
    if stream && key == "stream"@ {
        assert(base[2].0 == key);
    }
}

/// Which optional members a text request has, for either kind of model.
pub proof fn lemma_sampling_keys(params: TextParamsView, capable: bool, key: Seq<char>)
    ensures
        holds_key(sampling_members(params, capable), key) == if capable {
            ||| (key == "temperature"@ && params.temperature is Some)
            ||| (key == "frequency_penalty"@ && params.frequency_penalty is Some)
            ||| (key == "presence_penalty"@ && params.presence_penalty is Some)
            ||| (key == "stop"@ && params.stop is Some)
            ||| (key == "max_tokens"@ && params.max_tokens is Some)
        } else {
            key == "max_completion_tokens"@ && params.max_tokens is Some
        },
{
    let t = optional("temperature"@, sampling(params.temperature));
    let f = optional("frequency_penalty"@, sampling(params.frequency_penalty));
    let p = optional("presence_penalty"@, sampling(params.presence_penalty));
    let s = optional("stop"@, text_list(params.stop));
    let m = optional("max_tokens"@, quantity(params.max_tokens));
    lemma_holds_key_optional("temperature"@, sampling(params.temperature), key);
    lemma_holds_key_optional("frequency_penalty"@, sampling(params.frequency_penalty), key);
    lemma_holds_key_optional("presence_penalty"@, sampling(params.presence_penalty), key);
    lemma_holds_key_optional("stop"@, text_list(params.stop), key);
    lemma_holds_key_optional("max_tokens"@, quantity(params.max_tokens), key);
    lemma_holds_key_optional("max_completion_tokens"@, quantity(params.max_tokens), key);
    lemma_holds_key_add(t, f, key);
    lemma_holds_key_add(t + f, p, key);
    lemma_holds_key_add(t + f + p, s, key);
    lemma_holds_key_add(t + f + p + s, m, key);
}

/// Which members a text request has.
pub proof fn lemma_text_payload_keys(
    params: TextParamsView,
    model: Seq<char>,
    capable: bool,
    stream: bool,
    key: Seq<char>,
)
    ensures
        text_payload(params, model, capable, stream).has_key(key) == ({
            ||| key == "model"@
            ||| key == "messages"@
            ||| (stream && key == "stream"@)
            ||| holds_key(sampling_members(params, capable), key)
        }),
{
    lemma_holds_key_add(text_base(params, model, stream), sampling_members(params, capable), key);
    lemma_text_base_keys(params, model, stream, key);
}

/// The names in a text request are distinct words.
pub proof fn lemma_member_names_differ()
    ensures
        "model"@.len() == 5,
        "messages"@.len() == 8,
        "stream"@.len() == 6,
        "temperature"@.len() == 11,
        "frequency_penalty"@.len() == 17,
        "presence_penalty"@.len() == 16,
        "stop"@.len() == 4,
        "max_tokens"@.len() == 10,
        "max_completion_tokens"@.len() == 21,
{
    reveal_strlit("model");
    reveal_strlit("messages");
    reveal_strlit("stream");
    reveal_strlit("temperature");
    reveal_strlit("frequency_penalty");
    reveal_strlit("presence_penalty");
    reveal_strlit("stop");
    reveal_strlit("max_tokens");
    reveal_strlit("max_completion_tokens");
}

/// A request for a model that takes sampling controls has a member for each
/// control exactly when the caller supplied it: nothing left unset is sent,
/// and nothing is filled in. It never has `max_completion_tokens`, and its
/// other members are `model`, `messages` and, where asked for, `stream`.
pub proof fn lemma_capable_request_members(params: TextParamsView, model: Seq<char>, stream: bool)
    ensures
        ({
            let body = text_payload(params, model, true, stream);
            &&& body.has_key("model"@)
            &&& body.has_key("messages"@)
            &&& body.has_key("stream"@) <==> stream
            &&& body.has_key("temperature"@) <==> params.temperature is Some
            &&& body.has_key("frequency_penalty"@) <==> params.frequency_penalty is Some
            &&& body.has_key("presence_penalty"@) <==> params.presence_penalty is Some
            &&& body.has_key("stop"@) <==> params.stop is Some
            &&& body.has_key("max_tokens"@) <==> params.max_tokens is Some
            &&& !body.has_key("max_completion_tokens"@)
            &&& forall|key: Seq<char>| #[trigger]
                body.has_key(key) ==> {
                    ||| key == "model"@
                    ||| key == "messages"@
                    ||| key == "stream"@
                    ||| key == "temperature"@
                    ||| key == "frequency_penalty"@
                    ||| key == "presence_penalty"@
                    ||| key == "stop"@
                    ||| key == "max_tokens"@
                }
        }),
{
    lemma_member_names_differ();
    assert forall|key: Seq<char>|
        #[trigger] text_payload(params, model, true, stream).has_key(key) == ({
            ||| key == "model"@
            ||| key == "messages"@
            ||| (stream && key == "stream"@)
            ||| (key == "temperature"@ && params.temperature is Some)
            ||| (key == "frequency_penalty"@ && params.frequency_penalty is Some)
            ||| (key == "presence_penalty"@ && params.presence_penalty is Some)
            ||| (key == "stop"@ && params.stop is Some)
            ||| (key == "max_tokens"@ && params.max_tokens is Some)
        }) by {
        lemma_text_payload_keys(params, model, true, stream, key);
        lemma_sampling_keys(params, true, key);
    }
}

/// A request for a reasoning-only model has none of the five sampling
/// controls, whatever the caller supplied. A supplied token limit goes out as
/// `max_completion_tokens`, and as nothing else.
pub proof fn lemma_reasoning_request_members(params: TextParamsView, model: Seq<char>, stream: bool)
    ensures
        ({
            let body = text_payload(params, model, false, stream);
            &&& body.has_key("model"@)
            &&& body.has_key("messages"@)
            &&& body.has_key("stream"@) <==> stream
            &&& !body.has_key("temperature"@)
            &&& !body.has_key("frequency_penalty"@)
            &&& !body.has_key("presence_penalty"@)
            &&& !body.has_key("stop"@)
            &&& !body.has_key("max_tokens"@)
            &&& body.has_key("max_completion_tokens"@) <==> params.max_tokens is Some
            &&& params.max_tokens matches Some(n) ==> body == Json::Object(
                text_base(params, model, stream).push(
                    ("max_completion_tokens"@, Json::Unsigned(n as u64)),
                ),
            )
        }),
{
    lemma_member_names_differ();
    assert forall|key: Seq<char>|
        #[trigger] text_payload(params, model, false, stream).has_key(key) == ({
            ||| key == "model"@
            ||| key == "messages"@
            ||| (stream && key == "stream"@)
            ||| (key == "max_completion_tokens"@ && params.max_tokens is Some)
        }) by {
        lemma_text_payload_keys(params, model, false, stream, key);
        lemma_sampling_keys(params, false, key);
    }
    if params.max_tokens is Some {
        let base = text_base(params, model, stream);
        let rest = sampling_members(params, false);
        assert(base + rest =~= base.push(rest[0]));
    }
}

/// With nothing but the prompt set, a request for a model that takes sampling
/// controls has exactly two members, `model` and `messages`, and the messages
/// are the one user message.
pub proof fn lemma_bare_request(prompt: Seq<char>, model: Seq<char>)
    ensures
        text_payload(TextParamsView::bare(prompt), model, true, false) == Json::Object(
            seq![
                ("model"@, Json::Text(model)),
                ("messages"@, Json::Array(seq![message("user"@, prompt)])),
            ],
        ),
{
    let params = TextParamsView::bare(prompt);
    assert(sampling_members(params, true) =~= Seq::empty());
    assert(text_base(params, model, false) + sampling_members(params, true) =~= text_base(
        params,
        model,
        false,
    ));
}

/// Building a request is a function of the parameters, the model and its
/// capability: whenever these are the same, so is the body, member by member.
pub proof fn lemma_request_is_function(
    first: TextGenerationParams,
    second: TextGenerationParams,
    model: Seq<char>,
    capable: bool,
    stream: bool,
)
    requires
        first@ == second@,
    ensures
        text_payload(first@, model, capable, stream) == text_payload(second@, model, capable, stream),
{
}

} // verus!
