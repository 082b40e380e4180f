//! What may be relied on of a provider from when it is made, call by call.

use crate::error::{request_failed, ProviderError};
use crate::exchange::LogPending;
use crate::provider::{
    completions_path, plan_for_config, plan_for_model, OpenAiCompatibleProvider,
};
use crate::request::{written_request, ImageFormat, ModelConfig, RequestPlan};
use serde_json::Value;
use vstd::prelude::*;

verus! {

/// What a provider is made of is what it answers to, and it streams.
pub proof fn a_provider_is_what_it_was_made_of<A>(
    name: String,
    client: A,
    prefix: String,
    provider: OpenAiCompatibleProvider<A>,
    told_name: &str,
    told_client: &A,
    streams: bool,
)
    requires
        call_ensures(OpenAiCompatibleProvider::<A>::new, (name, client, prefix), provider),
        call_ensures(OpenAiCompatibleProvider::<A>::get_name, (&provider,), told_name),
        call_ensures(OpenAiCompatibleProvider::<A>::api_client, (&provider,), told_client),
        call_ensures(OpenAiCompatibleProvider::<A>::supports_streaming, (&provider,), streams),
    ensures
        told_name@ == name@,
        *told_client == client,
        streams,
{
}

/// Switching streaming on or off changes nothing else of a provider: neither what it answers
/// to nor what it posts, but for the flag.
pub proof fn switching_streaming_changes_nothing_else<'a, A, X>(
    provider: OpenAiCompatibleProvider<A>,
    streaming: bool,
    switched: OpenAiCompatibleProvider<A>,
    names: (&str, &str),
    clients: (&A, &A),
    streams: bool,
    model_config: &'a ModelConfig<X>,
    payload: Value,
    pending: (LogPending<'a, X>, LogPending<'a, X>),
)
    requires
        call_ensures(
            OpenAiCompatibleProvider::<A>::with_supports_streaming,
            (provider, streaming),
            switched,
        ),
        call_ensures(OpenAiCompatibleProvider::<A>::get_name, (&provider,), names.0),
        call_ensures(OpenAiCompatibleProvider::<A>::get_name, (&switched,), names.1),
        call_ensures(OpenAiCompatibleProvider::<A>::api_client, (&provider,), clients.0),
        call_ensures(OpenAiCompatibleProvider::<A>::api_client, (&switched,), clients.1),
        call_ensures(OpenAiCompatibleProvider::<A>::supports_streaming, (&switched,), streams),
        call_ensures(
            OpenAiCompatibleProvider::<A>::stream_payload::<X>,
            (&provider, model_config, payload),
            pending.0,
        ),
        call_ensures(
            OpenAiCompatibleProvider::<A>::stream_payload::<X>,
            (&switched, model_config, payload),
            pending.1,
        ),
    ensures
        names.0@ == names.1@,
        *clients.0 == *clients.1,
        streams == streaming,
        pending.0.post.path@ == pending.1.post.path@,
        pending.0.post.payload == pending.1.post.payload,
        pending.0.post.model_config == pending.1.post.model_config,
        pending.1.post.streaming == streaming,
{
}

/// A provider that was made with `prefix` posts to the whole prefix followed by
/// `chat/completions`, however long the prefix is and whatever it holds. The post carries the
/// payload and the configuration as they were passed, and asks for a stream if and only if the
/// provider was last told to.
pub proof fn a_post_goes_below_the_whole_prefix<'a, A, X>(
    name: String,
    client: A,
    prefix: String,
    made: OpenAiCompatibleProvider<A>,
    streaming: bool,
    provider: OpenAiCompatibleProvider<A>,
    model_config: &'a ModelConfig<X>,
    payload: Value,
    pending: LogPending<'a, X>,
)
    requires
        call_ensures(OpenAiCompatibleProvider::<A>::new, (name, client, prefix), made),
        call_ensures(
            OpenAiCompatibleProvider::<A>::with_supports_streaming,
            (made, streaming),
            provider,
        ),
        call_ensures(
            OpenAiCompatibleProvider::<A>::stream_payload::<X>,
            (&provider, model_config, payload),
            pending,
        ),
    ensures
        pending.post.path@.len() == prefix@.len() + "chat/completions"@.len(),
        forall|i: int| 0 <= i < prefix@.len() ==> #[trigger] pending.post.path@[i] == prefix@[i],
        pending.post.path@.skip(prefix@.len() as int) == "chat/completions"@,
        pending.post.payload == payload,
        pending.post.model_config == model_config,
        pending.post.streaming == streaming,
{
}

/// A provider that was not told otherwise asks for a stream.
pub proof fn a_new_provider_posts_for_a_stream<'a, A, X>(
    name: String,
    client: A,
    prefix: String,
    provider: OpenAiCompatibleProvider<A>,
    model_config: &'a ModelConfig<X>,
    payload: Value,
    pending: LogPending<'a, X>,
)
    requires
        call_ensures(OpenAiCompatibleProvider::<A>::new, (name, client, prefix), provider),
        call_ensures(
            OpenAiCompatibleProvider::<A>::stream_payload::<X>,
            (&provider, model_config, payload),
            pending,
        ),
    ensures
        pending.post.streaming,
        pending.post.path@ == prefix@ + "chat/completions"@,
        pending.post.payload == payload,
        pending.post.model_config == model_config,
{
}

/// Two posts go to one path if and only if their providers were made with one prefix.
pub proof fn different_prefixes_post_to_different_paths<'a, A, X>(
    names: (String, String),
    clients: (A, A),
    prefixes: (String, String),
    providers: (OpenAiCompatibleProvider<A>, OpenAiCompatibleProvider<A>),
    configs: (&'a ModelConfig<X>, &'a ModelConfig<X>),
    payloads: (Value, Value),
    pending: (LogPending<'a, X>, LogPending<'a, X>),
)
    requires
        call_ensures(
            OpenAiCompatibleProvider::<A>::new,
            (names.0, clients.0, prefixes.0),
            providers.0,
        ),
        call_ensures(
            OpenAiCompatibleProvider::<A>::new,
            (names.1, clients.1, prefixes.1),
            providers.1,
        ),
        call_ensures(
            OpenAiCompatibleProvider::<A>::stream_payload::<X>,
            (&providers.0, configs.0, payloads.0),
            pending.0,
        ),
        call_ensures(
            OpenAiCompatibleProvider::<A>::stream_payload::<X>,
            (&providers.1, configs.1, payloads.1),
            pending.1,
        ),
    ensures
        pending.0.post.path@ == pending.1.post.path@ <==> prefixes.0@ == prefixes.1@,
{
    paths_tell_prefixes_apart(prefixes.0@, prefixes.1@);
}

/// A path holds its prefix whole, then `chat/completions`, and different prefixes give
/// different paths.
pub proof fn paths_tell_prefixes_apart(a: Seq<char>, b: Seq<char>)
    ensures
        completions_path(a).len() == a.len() + "chat/completions"@.len(),
        completions_path(a).take(a.len() as int) == a,
        completions_path(a).skip(a.len() as int) == "chat/completions"@,
        completions_path(a) == completions_path(b) <==> a == b,
{
    assert(completions_path(a).take(a.len() as int) =~= a);
    assert(completions_path(b).take(b.len() as int) =~= b);
    assert(completions_path(b).len() == b.len() + "chat/completions"@.len());
}

/// A request for the configured model is planned with each argument as it was passed, however
/// many messages and tools there are, and names no other model.
pub proof fn a_plan_holds_what_was_passed<'a, A, X, M, T>(
    provider: &OpenAiCompatibleProvider<A>,
    model_config: &'a ModelConfig<X>,
    system: &'a str,
    messages: &'a [M],
    tools: &'a [T],
    for_streaming: bool,
    plan: RequestPlan<'a, X, M, T>,
)
    requires
        call_ensures(
            OpenAiCompatibleProvider::<A>::build_request::<X, M, T>,
            (provider, model_config, system, messages, tools, for_streaming),
            plan,
        ),
    ensures
        plan.model_config == model_config,
        plan.model_override is None,
        plan.system == system,
        plan.messages@ == messages@,
        plan.tools@ == tools@,
        plan.image_format is OpenAi,
        plan.for_streaming == for_streaming,
{
}

/// A request for another model is planned with each argument as it was passed, too. It names
/// that model, keeps thinking context, and takes images if and only if the configuration says
/// that the model does.
pub proof fn a_plan_for_another_model_holds_what_was_passed<'a, A, X, M, T>(
    provider: &OpenAiCompatibleProvider<A>,
    model_config: &'a ModelConfig<X>,
    wire_model: &'a str,
    capability_model: &'a str,
    system: &'a str,
    messages: &'a [M],
    tools: &'a [T],
    for_streaming: bool,
    plan: RequestPlan<'a, X, M, T>,
)
    requires
        call_ensures(
            OpenAiCompatibleProvider::<A>::build_request_for_model::<X, M, T>,
            (
                provider,
                model_config,
                wire_model,
                capability_model,
                system,
                messages,
                tools,
                for_streaming,
            ),
            plan,
        ),
    ensures
        plan.model_config == model_config,
        plan.model_override is Some,
        plan.model_override->0.wire_model == wire_model,
        plan.model_override->0.capability_model == capability_model,
        plan.model_override->0.options.preserve_thinking_context,
        plan.model_override->0.options.supports_vision <==> model_config.supports_vision == Some(
            true,
        ),
        plan.system == system,
        plan.messages@ == messages@,
        plan.tools@ == tools@,
        plan.image_format is OpenAi,
        plan.for_streaming == for_streaming,
{
}

/// Two plans agree on what their calls agree on, and on nothing else.
pub proof fn plans_differ_where_their_arguments_do<'a, A, X, M, T>(
    providers: (&OpenAiCompatibleProvider<A>, &OpenAiCompatibleProvider<A>),
    configs: (&'a ModelConfig<X>, &'a ModelConfig<X>),
    systems: (&'a str, &'a str),
    messages: (&'a [M], &'a [M]),
    tools: (&'a [T], &'a [T]),
    for_streaming: (bool, bool),
    plans: (RequestPlan<'a, X, M, T>, RequestPlan<'a, X, M, T>),
)
    requires
        call_ensures(
            OpenAiCompatibleProvider::<A>::build_request::<X, M, T>,
            (providers.0, configs.0, systems.0, messages.0, tools.0, for_streaming.0),
            plans.0,
        ),
        call_ensures(
            OpenAiCompatibleProvider::<A>::build_request::<X, M, T>,
            (providers.1, configs.1, systems.1, messages.1, tools.1, for_streaming.1),
            plans.1,
        ),
    ensures
        plans.0.model_config == plans.1.model_config <==> configs.0 == configs.1,
        plans.0.system == plans.1.system <==> systems.0 == systems.1,
        plans.0.messages == plans.1.messages <==> messages.0 == messages.1,
        plans.0.tools == plans.1.tools <==> tools.0 == tools.1,
        plans.0.for_streaming == plans.1.for_streaming <==> for_streaming.0 == for_streaming.1,
        plans.0.model_override == plans.1.model_override,
        plans.0.image_format == plans.1.image_format,
{
}

/// The request that an exchange begins with holds what was passed, and asks for a stream if
/// and only if the provider was last told to.
pub proof fn an_exchange_begins_with_what_was_passed<'a, A, X, M, T>(
    made: OpenAiCompatibleProvider<A>,
    streaming: bool,
    provider: OpenAiCompatibleProvider<A>,
    model_config: &'a ModelConfig<X>,
    wire_model: &'a str,
    capability_model: &'a str,
    system: &'a str,
    messages: &'a [M],
    tools: &'a [T],
    plan: RequestPlan<'a, X, M, T>,
    other: RequestPlan<'a, X, M, T>,
)
    requires
        call_ensures(
            OpenAiCompatibleProvider::<A>::with_supports_streaming,
            (made, streaming),
            provider,
        ),
        call_ensures(
            OpenAiCompatibleProvider::<A>::stream::<X, M, T>,
            (&provider, model_config, system, messages, tools),
            plan,
        ),
        call_ensures(
            OpenAiCompatibleProvider::<A>::stream_for_model::<X, M, T>,
            (
                &provider,
                model_config,
                wire_model,
                capability_model,
                system,
                messages,
                tools,
            ),
            other,
        ),
    ensures
        plan.model_config == model_config && other.model_config == model_config,
        plan.system == system && other.system == system,
        plan.messages@ == messages@ && other.messages@ == messages@,
        plan.tools@ == tools@ && other.tools@ == tools@,
        plan.image_format is OpenAi && other.image_format is OpenAi,
        plan.for_streaming == streaming && other.for_streaming == streaming,
        plan.model_override is None,
        other.model_override is Some,
        other.model_override->0.wire_model == wire_model,
        other.model_override->0.capability_model == capability_model,
        other.model_override->0.options.preserve_thinking_context,
        other.model_override->0.options.supports_vision <==> model_config.supports_vision
            == Some(true),
{
}

/// What a provider plans is what it posts for: whatever body is written of a plan is posted
/// as it is, for the configuration that was passed, below the provider's prefix, and the post
/// asks for a stream if and only if the plan does.
pub proof fn what_is_planned_is_posted<'a, A, X, M, T>(
    name: String,
    client: A,
    prefix: String,
    made: OpenAiCompatibleProvider<A>,
    streaming: bool,
    provider: OpenAiCompatibleProvider<A>,
    model_config: &'a ModelConfig<X>,
    system: &'a str,
    messages: &'a [M],
    tools: &'a [T],
    plan: RequestPlan<'a, X, M, T>,
    payload: Value,
    next: Result<LogPending<'a, X>, ProviderError>,
)
    requires
        call_ensures(OpenAiCompatibleProvider::<A>::new, (name, client, prefix), made),
        call_ensures(
            OpenAiCompatibleProvider::<A>::with_supports_streaming,
            (made, streaming),
            provider,
        ),
        call_ensures(
            OpenAiCompatibleProvider::<A>::stream::<X, M, T>,
            (&provider, model_config, system, messages, tools),
            plan,
        ),
        call_ensures(
            OpenAiCompatibleProvider::<A>::on_written::<X, M, T>,
            (&provider, &plan, Ok(payload)),
            next,
        ),
    ensures
        next is Ok,
        next->Ok_0.post.payload == payload,
        next->Ok_0.post.model_config == model_config,
        next->Ok_0.post.path@ == prefix@ + "chat/completions"@,
        next->Ok_0.post.streaming == plan.for_streaming,
        next->Ok_0.post.streaming == streaming,
{
}

/// Whatever the plan, the body that was written of it is posted just as it would be without
/// one: only the configuration is taken from the plan.
pub proof fn a_written_body_is_posted_as_it_is<'a, A, X, M, T>(
    provider: &OpenAiCompatibleProvider<A>,
    plan: &RequestPlan<'a, X, M, T>,
    payload: Value,
    next: Result<LogPending<'a, X>, ProviderError>,
    pending: LogPending<'a, X>,
)
    requires
        call_ensures(
            OpenAiCompatibleProvider::<A>::on_written::<X, M, T>,
            (provider, plan, Ok(payload)),
            next,
        ),
        call_ensures(
            OpenAiCompatibleProvider::<A>::stream_payload::<X>,
            (provider, plan.model_config, payload),
            pending,
        ),
    ensures
        next is Ok,
        next->Ok_0.post.payload == payload,
        next->Ok_0.post.model_config == plan.model_config,
        next->Ok_0.post.path@ == pending.post.path@,
        next->Ok_0.post.streaming == pending.post.streaming,
{
}

/// Where no body could be written, nothing is posted, and the failed request says why.
pub proof fn what_cannot_be_written_is_not_posted<'a, A, X, M, T>(
    provider: &OpenAiCompatibleProvider<A>,
    plan: &RequestPlan<'a, X, M, T>,
    why: String,
    next: Result<LogPending<'a, X>, ProviderError>,
    request: Result<Value, ProviderError>,
)
    requires
        call_ensures(
            OpenAiCompatibleProvider::<A>::on_written::<X, M, T>,
            (provider, plan, Err(why)),
            next,
        ),
        call_ensures(written_request, (Err(why),), request),
    ensures
        next is Err,
        next->Err_0 is RequestFailed,
        next->Err_0->RequestFailed_0@ == "Failed to create request: "@ + why@,
        request is Err,
        request->Err_0 is RequestFailed,
        request->Err_0->RequestFailed_0@ == "Failed to create request: "@ + why@,
{
}

/// A body that was written is the request, as it is.
pub proof fn a_written_body_is_the_request(
    payload: Value,
    request: Result<Value, ProviderError>,
)
    requires
        call_ensures(written_request, (Ok(payload),), request),
    ensures
        request is Ok,
        request->Ok_0 == payload,
{
}

/// Credentials are renewed if and only if the client renewed them; else the authentication
/// error is in the client's own words.
pub proof fn credentials_fail_in_the_clients_words<A>(
    provider: &OpenAiCompatibleProvider<A>,
    refreshed: Result<(), String>,
    outcome: Result<(), ProviderError>,
)
    requires
        call_ensures(
            OpenAiCompatibleProvider::<A>::refresh_credentials,
            (provider, refreshed),
            outcome,
        ),
    ensures
        outcome is Ok <==> refreshed is Ok,
        outcome is Err ==> outcome->Err_0 is Authentication,
        outcome is Err ==> outcome->Err_0->Authentication_0@ == refreshed->Err_0@,
{
}

/// A failed request says what failed, then why, with nothing between or around.
pub proof fn a_failed_request_says_what_and_why(what: &str, why: &str, error: ProviderError)
    requires
        call_ensures(request_failed, (what, why), error),
    ensures
        error is RequestFailed,
        error->RequestFailed_0@.len() == what@.len() + why@.len(),
        what@.is_prefix_of(error->RequestFailed_0@),
        error->RequestFailed_0@.skip(what@.len() as int) == why@,
{
}

/// The plans hold each argument as it was passed.
pub proof fn plans_hold_their_arguments<'a, X, M, T>(
    model_config: &'a ModelConfig<X>,
    wire_model: &'a str,
    capability_model: &'a str,
    system: &'a str,
    messages: &'a [M],
    tools: &'a [T],
    for_streaming: bool,
)
    ensures
        ({
            let plan = plan_for_config(model_config, system, messages, tools, for_streaming);
            let other = plan_for_model(
                model_config,
                wire_model,
                capability_model,
                system,
                messages,
                tools,
                for_streaming,
            );
            &&& plan.model_config == model_config && other.model_config == model_config
            &&& plan.system == system && other.system == system
            &&& plan.messages == messages && other.messages == messages
            &&& plan.tools == tools && other.tools == tools
            &&& plan.for_streaming == for_streaming && other.for_streaming == for_streaming
            &&& plan.model_override is None && other.model_override is Some
            &&& other.model_override->0.wire_model == wire_model
            &&& other.model_override->0.capability_model == capability_model
        }),
{
}

} // verus!
