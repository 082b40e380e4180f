//! What may be relied on of a streamed response, call by call.

use crate::error::ProviderError;
use crate::stream::{
    on_message_event, stream_openai_compat, stream_openai_compat_with_idle_timeout,
    stream_responses_compat, CompatStream, Fault, LogEntry, MessageEvent, MessageStep,
};
use crate::usage::ProviderUsage;
use vstd::prelude::*;

verus! {

/// A chat completion is streamed from the response and to the log that were passed, with its
/// lines guarded by the idle timeout that was asked for, or for two minutes.
pub proof fn a_chat_completion_is_guarded<R, L>(
    response: R,
    log: L,
    idle_timeout_secs: u64,
    usual: Result<CompatStream<R, L>, ProviderError>,
    chosen: Result<CompatStream<R, L>, ProviderError>,
)
    requires
        call_ensures(stream_openai_compat::<R, L>, (response, log), usual),
        call_ensures(
            stream_openai_compat_with_idle_timeout::<R, L>,
            (response, log, idle_timeout_secs),
            chosen,
        ),
    ensures
        usual is Ok && chosen is Ok,
        usual->Ok_0.response == response && chosen->Ok_0.response == response,
        usual->Ok_0.log == log && chosen->Ok_0.log == log,
        usual->Ok_0.format is ChatCompletions && chosen->Ok_0.format is ChatCompletions,
        usual->Ok_0.idle_timeout_secs == Some(120u64),
        chosen->Ok_0.idle_timeout_secs == Some(idle_timeout_secs),
{
}

/// A response of the responses API is streamed without a guard.
pub proof fn a_responses_stream_is_not_guarded<R, L>(
    response: R,
    log: L,
    stream: Result<CompatStream<R, L>, ProviderError>,
)
    requires
        call_ensures(stream_responses_compat::<R, L>, (response, log), stream),
    ensures
        stream is Ok,
        stream->Ok_0.response == response,
        stream->Ok_0.log == log,
        stream->Ok_0.format is Responses,
        stream->Ok_0.idle_timeout_secs is None,
{
}

/// What is parsed decides what comes next: a message is logged, the provider's own error ends
/// the stream as it is, any other error is told as undecodable, and the end ends it.
pub proof fn what_is_parsed_decides<M, U, D, C, E, F>(
    event: MessageEvent<M, U, D, C, E, F>,
    step: MessageStep<M, U, D, C, E, F>,
)
    requires
        call_ensures(on_message_event::<M, U, D, C, E, F>, (event,), step),
    ensures
        step is Log <==> event is Message,
        step is Log ==> step->Log_0.message == event->Message_0 && step->Log_0.usage
            == event->Message_1,
        step is Fail <==> event is Failed && event->Failed_0 is Provider,
        step is Fail ==> step->Fail_0 == event->Failed_0->Provider_0,
        step is Undecodable <==> event is Failed && event->Failed_0 is Foreign,
        step is Undecodable ==> step->Undecodable_0 == event->Failed_0->Foreign_0,
        step is Finish <==> event is End,
{
}

/// A parsed message is logged with the token counts of its usage, where it has one, and is
/// handed out, message and usage as they were parsed, if and only if it was logged. Else the
/// log's error is what comes out.
pub proof fn a_parsed_message_is_logged_and_handed_out<M, U, D, C, E, F>(
    message: M,
    usage: Option<ProviderUsage<U, D, C>>,
    entry: LogEntry<M, U, D, C>,
    counts: Option<&U>,
    logged: Result<(), F>,
    item: Result<(M, Option<ProviderUsage<U, D, C>>), F>,
)
    requires
        call_ensures(
            on_message_event::<M, U, D, C, E, F>,
            (MessageEvent::Message(message, usage),),
            MessageStep::<M, U, D, C, E, F>::Log(entry),
        ),
        call_ensures(LogEntry::<M, U, D, C>::logged_usage, (&entry,), counts),
        call_ensures(LogEntry::<M, U, D, C>::on_logged::<F>, (entry, logged), item),
    ensures
        entry.message == message,
        counts is Some <==> usage is Some,
        counts is Some ==> *counts->0 == usage->0.usage,
        item is Ok <==> logged is Ok,
        item is Ok ==> item->Ok_0.0 == message && item->Ok_0.1 == usage,
        item is Err ==> item->Err_0 == logged->Err_0,
{
}

} // verus!
