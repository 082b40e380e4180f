//! A provider that speaks the OpenAI chat completions protocol.

use crate::error::{ErrorView, ProviderError};
use crate::exchange::{ending, Ending, LogPending, Post, Posting, Replies};
use crate::request::{
    written_request, ImageFormat, ModelConfig, ModelOverride, OpenAiFormatOptions, RequestPlan,
};
use serde_json::Value;
use vstd::prelude::*;

verus! {

/// A provider reached through a client `A` that is targeted at the base URL, such as
/// `https://api.x.ai/v1`.
pub struct OpenAiCompatibleProvider<A> {
    name: String,
    api_client: A,
    /// What stands before `chat/completions` in the path, such as `deployments/{name}/`.
    completions_prefix: String,
    supports_streaming: bool,
}

/// An [`OpenAiCompatibleProvider`] with its strings as characters.
pub struct ProviderView<A> {
    pub name: Seq<char>,
    pub api_client: A,
    pub completions_prefix: Seq<char>,
    pub supports_streaming: bool,
}

impl<A> View for OpenAiCompatibleProvider<A> {
    type V = ProviderView<A>;

    closed spec fn view(&self) -> ProviderView<A> {
        ProviderView {
            name: self.name@,
            api_client: self.api_client,
            completions_prefix: self.completions_prefix@,
            supports_streaming: self.supports_streaming,
        }
    }
}

/// The path that chat completions are posted to.
pub open spec fn completions_path(prefix: Seq<char>) -> Seq<char> {
    prefix + "chat/completions"@
}

/// A request for `wire_model`, written so that thinking context is kept and images go only
/// to a model that is known to take them.
pub open spec fn plan_for_model<'a, X, M, T>(
    model_config: &'a ModelConfig<X>,
    wire_model: &'a str,
    capability_model: &'a str,
    system: &'a str,
    messages: &'a [M],
    tools: &'a [T],
    for_streaming: bool,
) -> RequestPlan<'a, X, M, T> {
    RequestPlan {
        model_config,
        model_override: Some(
            ModelOverride {
                wire_model,
                capability_model,
                options: OpenAiFormatOptions {
                    preserve_thinking_context: true,
                    supports_vision: model_config.supports_vision == Some(true),
                },
            },
        ),
        system,
        messages,
        tools,
        image_format: ImageFormat::OpenAi,
        for_streaming,
    }
}

/// A request for the configured model, with the format's own options.
pub open spec fn plan_for_config<'a, X, M, T>(
    model_config: &'a ModelConfig<X>,
    system: &'a str,
    messages: &'a [M],
    tools: &'a [T],
    for_streaming: bool,
) -> RequestPlan<'a, X, M, T> {
    RequestPlan {
        model_config,
        model_override: None,
        system,
        messages,
        tools,
        image_format: ImageFormat::OpenAi,
        for_streaming,
    }
}

impl<A> OpenAiCompatibleProvider<A> {
    /// A provider that streams.
    pub fn new(name: String, api_client: A, completions_prefix: String) -> (provider: Self)
        ensures
            provider@ == (ProviderView {
                name: name@,
                api_client,
                completions_prefix: completions_prefix@,
                supports_streaming: true,
            }),
    {
        OpenAiCompatibleProvider { name, api_client, completions_prefix, supports_streaming: true }
    }

    /// The same provider, streaming or not.
    pub fn with_supports_streaming(self, supports_streaming: bool) -> (provider: Self)
        ensures
            provider@ == (ProviderView { supports_streaming, ..self@ }),
    {
        let mut provider = self;
        provider.supports_streaming = supports_streaming;
        provider
    }

    /// The provider's name.
    pub fn get_name(&self) -> (name: &str)
        ensures
            name@ == self@.name,
    {
        self.name.as_str()
    }

    /// The client that the provider is reached through.
    pub fn api_client(&self) -> (api_client: &A)
        ensures
            *api_client == self@.api_client,
    {
        &self.api_client
    }

    /// Whether replies are streamed.
    pub fn supports_streaming(&self) -> (yes: bool)
        ensures
            yes == self@.supports_streaming,
    {
        self.supports_streaming
    }

    /// A request for `wire_model`, with its thinking context kept. A model that is not known
    /// to take images gets none.
    pub fn build_request_for_model<'a, X, M, T>(
        &self,
        model_config: &'a ModelConfig<X>,
        wire_model: &'a str,
        capability_model: &'a str,
        system: &'a str,
        messages: &'a [M],
        tools: &'a [T],
        for_streaming: bool,
    ) -> (plan: RequestPlan<'a, X, M, T>)
        ensures
            plan == plan_for_model(
                model_config,
                wire_model,
                capability_model,
                system,
                messages,
                tools,
                for_streaming,
            ),
    {
        let supports_vision: bool = match model_config.supports_vision {
            Some(yes) => yes,
            None => false,
        };
        let options = OpenAiFormatOptions { preserve_thinking_context: true, supports_vision };
        RequestPlan {
            model_config,
            model_override: Some(ModelOverride { wire_model, capability_model, options }),
            system,
            messages,
            tools,
            image_format: ImageFormat::OpenAi,
            for_streaming,
        }
    }

    /// A request for the configured model.
    pub fn build_request<'a, X, M, T>(
        &self,
        model_config: &'a ModelConfig<X>,
        system: &'a str,
        messages: &'a [M],
        tools: &'a [T],
        for_streaming: bool,
    ) -> (plan: RequestPlan<'a, X, M, T>)
        ensures
            plan == plan_for_config(model_config, system, messages, tools, for_streaming),
    {
        RequestPlan {
            model_config,
            model_override: None,
            system,
            messages,
            tools,
            image_format: ImageFormat::OpenAi,
            for_streaming,
        }
    }

    /// The request that an exchange with `wire_model` begins with, streamed where the
    /// provider streams.
    pub fn stream_for_model<'a, X, M, T>(
        &self,
        model_config: &'a ModelConfig<X>,
        wire_model: &'a str,
        capability_model: &'a str,
        system: &'a str,
        messages: &'a [M],
        tools: &'a [T],
    ) -> (plan: RequestPlan<'a, X, M, T>)
        ensures
            plan == plan_for_model(
                model_config,
                wire_model,
                capability_model,
                system,
                messages,
                tools,
                self@.supports_streaming,
            ),
    {
        self.build_request_for_model(
            model_config,
            wire_model,
            capability_model,
            system,
            messages,
            tools,
            self.supports_streaming,
        )
    }

    /// The request that an exchange with the configured model begins with, streamed where
    /// the provider streams.
    pub fn stream<'a, X, M, T>(
        &self,
        model_config: &'a ModelConfig<X>,
        system: &'a str,
        messages: &'a [M],
        tools: &'a [T],
    ) -> (plan: RequestPlan<'a, X, M, T>)
        ensures
            plan == plan_for_config(
                model_config,
                system,
                messages,
                tools,
                self@.supports_streaming,
            ),
    {
        self.build_request(model_config, system, messages, tools, self.supports_streaming)
    }

    /// Opens the exchange that posts `payload`.
    pub fn stream_payload<'a, X>(
        &self,
        model_config: &'a ModelConfig<X>,
        payload: Value,
    ) -> (pending: LogPending<'a, X>)
        ensures
            opens(self@, model_config, payload, pending),
    {
        let mut path: String = self.completions_prefix.clone();
        path.append("chat/completions");
        LogPending {
            post: Post {
                path,
                payload,
                streaming: self.supports_streaming,
                model_config,
            },
        }
    }

    /// Goes on from `plan` with what came of writing its body: opens the exchange that posts the
    /// body for the planned configuration. Nothing is opened where there is no body.
    pub fn on_written<'a, X, M, T>(
        &self,
        plan: &RequestPlan<'a, X, M, T>,
        written: Result<Value, String>,
    ) -> (next: Result<LogPending<'a, X>, ProviderError>)
        ensures
            match written {
                Ok(payload) => next is Ok && opens(
                    self@,
                    plan.model_config,
                    payload,
                    next->Ok_0,
                ),
                Err(why) => next is Err && next->Err_0@ == ErrorView::RequestFailed(
                    "Failed to create request: "@ + why@,
                ),
            },
    {
        match written_request(written) {
            Ok(payload) => Ok(self.stream_payload(plan.model_config, payload)),
            Err(error) => Err(error),
        }
    }

    /// What comes of renewing the client's credentials.
    pub fn refresh_credentials(&self, refreshed: Result<(), String>) -> (outcome: Result<
        (),
        ProviderError,
    >)
        ensures
            match refreshed {
                Ok(_) => outcome is Ok,
                Err(why) => outcome is Err && outcome->Err_0@ == ErrorView::Authentication(why@),
            },
    {
        match refreshed {
            Ok(_) => Ok(()),
            Err(why) => Err(ProviderError::Authentication(why)),
        }
    }
}

/// `pending` opens the exchange in which `provider` posts `payload` for `model_config`.
pub open spec fn opens<'a, A, X>(
    provider: ProviderView<A>,
    model_config: &'a ModelConfig<X>,
    payload: Value,
    pending: LogPending<'a, X>,
) -> bool {
    &&& pending.post.path@ == completions_path(provider.completions_prefix)
    &&& pending.post.payload == payload
    &&& pending.post.streaming == provider.supports_streaming
    &&& pending.post.model_config == model_config
}

/// One flag governs the exchange: the request asks for a stream, the post asks for one, and
/// the response is taken as one, if and only if the provider streams.
pub proof fn one_flag_governs_the_exchange<'a, A, X, I, T, R, M, U, D, C, E>(
    provider: ProviderView<A>,
    model_config: &'a ModelConfig<X>,
    wire_model: &'a str,
    capability_model: &'a str,
    system: &'a str,
    messages: &'a [I],
    tools: &'a [T],
    payload: Value,
    pending: LogPending<'a, X>,
    replies: Replies<R, M, U, D, C, E>,
)
    requires
        opens(provider, model_config, payload, pending),
    ensures
        plan_for_model(
            model_config,
            wire_model,
            capability_model,
            system,
            messages,
            tools,
            provider.supports_streaming,
        ).for_streaming == pending.post.streaming,
        plan_for_config(
            model_config,
            system,
            messages,
            tools,
            provider.supports_streaming,
        ).for_streaming == pending.post.streaming,
        pending.post.streaming == provider.supports_streaming,
        ending(pending, replies) is Streamed ==> provider.supports_streaming,
        ending(pending, replies) is Delivered ==> !provider.supports_streaming,
{
}

} // verus!
