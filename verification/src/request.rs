//! What goes into a chat completion request.

use crate::error::{request_failed, ErrorView, ProviderError};
use serde_json::Value;
use vstd::prelude::*;

verus! {

/// The model that a request is for. Of its configuration only the name and the vision flag
/// are read here; the rest, `X`, goes wherever the configuration goes.
#[derive(Clone, Debug, PartialEq, Eq)]
pub struct ModelConfig<X> {
    pub model_name: String,
    /// Whether the model takes images, where that is known.
    pub supports_vision: Option<bool>,
    pub rest: X,
}

/// How images are written into a request.
#[derive(Clone, Copy, Debug, PartialEq, Eq, Structural)]
pub enum ImageFormat {
    OpenAi,
}

/// The options of the request format that are set here; all others keep their defaults.
#[derive(Clone, Copy, Debug, PartialEq, Eq, Structural)]
pub struct OpenAiFormatOptions {
    pub preserve_thinking_context: bool,
    pub supports_vision: bool,
}

/// The model that a request names in place of the configured one.
#[derive(Clone, Copy, Debug, PartialEq, Eq)]
pub struct ModelOverride<'a> {
    /// The name that the request carries.
    pub wire_model: &'a str,
    /// The name that the model's capabilities are looked up by.
    pub capability_model: &'a str,
    pub options: OpenAiFormatOptions,
}

/// All that the request format needs to write a request body, for a configuration with rest
/// `X`, messages `M` and tools `T`.
#[derive(Debug, PartialEq, Eq)]
pub struct RequestPlan<'a, X, M, T> {
    pub model_config: &'a ModelConfig<X>,
    pub model_override: Option<ModelOverride<'a>>,
    pub system: &'a str,
    pub messages: &'a [M],
    pub tools: &'a [T],
    pub image_format: ImageFormat,
    pub for_streaming: bool,
}

/// What comes of writing the request body: the body, or why there is none.
pub fn written_request(written: Result<Value, String>) -> (request: Result<Value, ProviderError>)
    ensures
        match written {
            Ok(payload) => request == Ok::<Value, ProviderError>(payload),
            Err(why) => request is Err && request->Err_0@ == ErrorView::RequestFailed(
                "Failed to create request: "@ + why@,
            ),
        },
{
    match written {
        Ok(payload) => Ok(payload),
        Err(why) => Err(request_failed("Failed to create request: ", why.as_str())),
    }
}

} // verus!
