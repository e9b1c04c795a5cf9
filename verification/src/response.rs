//! What is made of the gateway's answers: the check of the status, the error
//! for an answer that reports failure, and the result that a successful
//! answer of each operation amounts to.
//!
//! The status is looked at before anything else. Only the body of an answer
//! that is known to report success is read as the schema of its operation.

use vstd::prelude::*;
use crate::error::{ErrorView, GatewayError};
use crate::json::{as_text, json_of, json_parse, member, parse_value, Json};
use crate::text::{strip_leading, strip_trailing, trim, trimmed, without_leading, without_trailing};
use crate::types::{
    opt_text, ChatCompletionResponse, EmbeddingResponse, ImageData, ImageGenerationResponse,
    ImageGenerationResult,
};

verus! {

/// The message for an answer whose body could not be read.
pub const UNREADABLE_BODY: &'static str = "Unknown error";

/// Whether an HTTP status code lies in the success class, 200 to 299.
pub fn is_success_status(status: u16) -> (ok: bool)
    ensures
        ok == (200 <= status < 300),
{
    200 <= status && status < 300
}

/// The message that an error document carries: the string under `error`, then
/// `message`.
pub open spec fn error_text(document: Json) -> Option<Seq<char>> {
    document.member("error"@).member("message"@).as_text()
}

/// The message of a failed answer, given what its body parses to: the message
/// of the error document, where the body is one, and else the body as it is.
pub open spec fn resolved_message(body: Seq<char>, parsed: Option<Json>) -> Seq<char> {
    match parsed {
        Some(document) => match error_text(document) {
            Some(message) => message,
            None => body,
        },
        None => body,
    }
}

/// The text of the body of a failed answer, or the fixed message where the
/// body could not be read.
pub open spec fn body_text(body: Option<Seq<char>>) -> Seq<char> {
    match body {
        Some(text) => text,
        None => UNREADABLE_BODY@,
    }
}

/// The error for an answer that reports failure.
pub open spec fn failure(status: u16, body: Option<Seq<char>>) -> ErrorView {
    ErrorView::ApiError {
        status,
        message: resolved_message(body_text(body), json_parse(body_text(body))),
    }
}

/// The message that an error document carries, if it carries one.
pub fn error_message(document: &serde_json::Value) -> (message: Option<String>)
    ensures
        opt_text(message) == error_text(json_of(*document)),
{
    match as_text(member(member(document, "error"), "message")) {
        Some(text) => Some(text.to_owned()),
        None => None,
    }
}

/// The message of a failed answer, given the result of parsing its body.
pub fn resolve_message(body: &str, parsed: Option<&serde_json::Value>) -> (message: String)
    ensures
        message@ == resolved_message(
            body@,
            match parsed {
                Some(document) => Some(json_of(*document)),
                None => None,
            },
        ),
{
    match parsed {
        Some(document) => match error_message(document) {
            Some(message) => message,
            None => body.to_owned(),
        },
        None => body.to_owned(),
    }
}

/// The error for an answer that reports failure. `body` is the text of the
/// answer's body, or `None` where it could not be read.
pub fn api_error(status: u16, body: Option<&str>) -> (error: GatewayError)
    ensures
        error@ == failure(status, opt_body(body)),
{
    let text: &str = match body {
        Some(text) => text,
        None => UNREADABLE_BODY,
    };
    let message = match parse_value(text) {
        Ok(document) => resolve_message(text, Some(&document)),
        Err(_) => resolve_message(text, None),
    };
    GatewayError::ApiError { status, message }
}

/// The text of an optional body.
pub open spec fn opt_body(body: Option<&str>) -> Option<Seq<char>> {
    match body {
        Some(text) => Some(text@),
        None => None,
    }
}

/// Passes an answer that reports success, and turns any other into its error.
/// The body is looked at only for an answer that reports failure.
pub fn check_response(status: u16, body: Option<&str>) -> (checked: Result<(), GatewayError>)
    ensures
        checked is Ok <==> 200 <= status < 300,
        checked matches Err(error) ==> error@ == failure(status, opt_body(body)),
{
    if is_success_status(status) {
        Ok(())
    } else {
        Err(api_error(status, body))
    }
}

/// The text that a chat completion amounts to: the content of the message of
/// its first choice, unless there is none or it is empty.
pub open spec fn first_content(response: ChatCompletionResponse) -> Option<Seq<char>> {
    if response.choices@.len() == 0 {
        None
    } else {
        match response.choices@[0].message.content {
            Some(content) => if content@.len() == 0 {
                None
            } else {
                Some(content@)
            },
            None => None,
        }
    }
}

/// The generated text of a chat completion. A completion without choices, or
/// whose first choice has no content or an empty one, is an empty response: an
/// empty text is never handed out as a success.
pub fn completion_text(response: &ChatCompletionResponse) -> (text: Result<String, GatewayError>)
    ensures
        match first_content(*response) {
            Some(content) => text matches Ok(t) && t@ == content,
            None => text matches Err(e) && e@ == ErrorView::EmptyResponse,
        },
        text matches Ok(t) ==> t@.len() > 0,
        response.choices@.len() == 0 ==> text is Err,
{
    if response.choices.len() == 0 {
        return Err(GatewayError::EmptyResponse);
    }
    match &response.choices[0].message.content {
        Some(content) => {
            if content.as_str().unicode_len() == 0 {
                Err(GatewayError::EmptyResponse)
            } else {
                Ok(content.clone())
            }
        },
        None => Err(GatewayError::EmptyResponse),
    }
}

/// The embedding of an answer: the vector of its first entry. An answer
/// without entries is an empty response.
pub fn first_embedding(response: &EmbeddingResponse) -> (vector: Result<Vec<u32>, GatewayError>)
    ensures
        match vector {
            Ok(v) => response.data@.len() > 0 && v@ == response.data@[0].embedding@,
            Err(e) => response.data@.len() == 0 && e@ == ErrorView::EmptyResponse,
        },
{
    if response.data.len() == 0 {
        return Err(GatewayError::EmptyResponse);
    }
    let source = &response.data[0].embedding;
    let mut vector: Vec<u32> = Vec::new();
    let n: usize = source.len();
    let mut i: usize = 0;
    while i < n
        invariant
            n == source@.len(),
            i <= n,
            vector@ == source@.take(i as int),
        decreases n - i,
    {
        vector.push(source[i]);
        proof {
            assert(vector@ =~= source@.take(i + 1));
        }
        i = i + 1;
    }
    proof {
        assert(source@.take(n as int) =~= source@);
    }
    Ok(vector)
}

/// One generated image as a mathematical value: its URL and its revised
/// prompt.
pub open spec fn image_view(url: Option<String>, revised_prompt: Option<String>) -> (
    Option<Seq<char>>,
    Option<Seq<char>>,
) {
    (opt_text(url), opt_text(revised_prompt))
}

/// The images that an answer reports, as mathematical values.
pub open spec fn reported_images(data: Seq<ImageData>) -> Seq<(Option<Seq<char>>, Option<Seq<char>>)> {
    Seq::new(data.len(), |i: int| image_view(data[i].url, data[i].revised_prompt))
}

/// The images handed to the caller, as mathematical values.
pub open spec fn result_images(images: Seq<ImageGenerationResult>) -> Seq<
    (Option<Seq<char>>, Option<Seq<char>>),
> {
    Seq::new(images.len(), |i: int| image_view(images[i].url, images[i].revised_prompt))
}

/// The images of an answer: every entry, in the gateway's order. An answer
/// without entries gives no images, which is no error.
pub fn generated_images(response: &ImageGenerationResponse) -> (images: Vec<ImageGenerationResult>)
    ensures
        result_images(images@) == reported_images(response.data@),
{
    let mut images: Vec<ImageGenerationResult> = Vec::new();
    let n: usize = response.data.len();
    let mut i: usize = 0;
    proof {
        assert(result_images(images@) =~= reported_images(response.data@.take(0)));
    }
    while i < n
        invariant
            n == response.data@.len(),
            i <= n,
            images@.len() == i,
            result_images(images@) == reported_images(response.data@.take(i as int)),
        decreases n - i,
    {
        let entry = &response.data[i];
        let image = ImageGenerationResult {
            url: clone_text(&entry.url),
            revised_prompt: clone_text(&entry.revised_prompt),
        };
        let ghost before = images@;
        images.push(image);
        proof {
            let now = result_images(images@);
            let goal = reported_images(response.data@.take(i + 1));
            assert(now.len() == goal.len());
            assert forall|k: int| 0 <= k < now.len() implies now[k] == goal[k] by {
                if k < i {
                    assert(images@[k] == before[k]);
                    assert(result_images(before)[k] == reported_images(
                        response.data@.take(i as int),
                    )[k]);
                }
            }
            assert(now =~= goal);
        }
        i = i + 1;
    }
    proof {
        assert(response.data@.take(n as int) =~= response.data@);
    }
    images
}

fn clone_text(text: &Option<String>) -> (copy: Option<String>)
    ensures
        opt_text(copy) == opt_text(*text),
{
    match text {
        Some(t) => Some(t.clone()),
        None => None,
    }
}

/// The text of a generated object without what surrounds it: white space, and
/// the fences of a code block.
pub open spec fn unfenced(response: Seq<char>) -> Seq<char> {
    trimmed(
        without_trailing(
            without_leading(without_leading(trimmed(response), "```json"@), "```"@),
            "```"@,
        ),
    )
}

/// The text of a generated object without what surrounds it.
pub fn clean_object_text(response: &str) -> (cleaned: &str)
    ensures
        cleaned@ == unfenced(response@),
{
    trim(strip_trailing(strip_leading(strip_leading(trim(response), "```json"), "```"), "```"))
}

/// The object that generated text stands for: the text, cleaned, read as JSON.
/// Text that is no JSON is a parse error.
pub fn parse_object(response: &str) -> (object: Result<serde_json::Value, GatewayError>)
    ensures
        object is Ok <==> json_parse(unfenced(response@)) is Some,
        object matches Ok(value) ==> json_parse(unfenced(response@)) == Some(json_of(value)),
        object matches Err(error) ==> error@ is ParseError,
{
    match parse_value(clean_object_text(response)) {
        Ok(value) => Ok(value),
        Err(error) => Err(GatewayError::ParseError(crate::json::error_text(&error))),
    }
}

} // verus!
