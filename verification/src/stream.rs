//! Streamed responses: which format they are parsed by, and how their messages are logged
//! and handed out.

use crate::error::{ErrorView, ProviderError};
use crate::idle::{
    stall_words, watch_step, LineEvent, LineStep, Watching, STREAM_IDLE_TIMEOUT_SECS,
};
use crate::usage::ProviderUsage;
use vstd::prelude::*;

verus! {

/// How the lines of a stream are parsed.
#[derive(Clone, Copy, Debug, PartialEq, Eq, Structural)]
pub enum StreamFormat {
    /// The chunks of a chat completion.
    ChatCompletions,
    /// The events of the responses API.
    Responses,
}

/// A response `R` that is to be streamed, its messages logged to `L`.
pub struct CompatStream<R, L> {
    pub response: R,
    pub log: L,
    pub format: StreamFormat,
    /// The idle timeout that guards the lines, where one does.
    pub idle_timeout_secs: Option<u64>,
}

/// Streams a chat completion, guarded by the usual idle timeout.
pub fn stream_openai_compat<R, L>(response: R, log: L) -> (stream: Result<
    CompatStream<R, L>,
    ProviderError,
>)
    ensures
        stream == Ok::<CompatStream<R, L>, ProviderError>(
            CompatStream {
                response,
                log,
                format: StreamFormat::ChatCompletions,
                idle_timeout_secs: Some(120),
            },
        ),
{
    stream_openai_compat_with_idle_timeout(response, log, STREAM_IDLE_TIMEOUT_SECS)
}

/// Streams a chat completion, guarded by an idle timeout of `idle_timeout_secs` seconds.
pub fn stream_openai_compat_with_idle_timeout<R, L>(
    response: R,
    log: L,
    idle_timeout_secs: u64,
) -> (stream: Result<CompatStream<R, L>, ProviderError>)
    ensures
        stream == Ok::<CompatStream<R, L>, ProviderError>(
            CompatStream {
                response,
                log,
                format: StreamFormat::ChatCompletions,
                idle_timeout_secs: Some(idle_timeout_secs),
            },
        ),
{
    Ok(
        CompatStream {
            response,
            log,
            format: StreamFormat::ChatCompletions,
            idle_timeout_secs: Some(idle_timeout_secs),
        },
    )
}

/// Streams a response of the responses API, without an idle timeout.
pub fn stream_responses_compat<R, L>(response: R, log: L) -> (stream: Result<
    CompatStream<R, L>,
    ProviderError,
>)
    ensures
        stream == Ok::<CompatStream<R, L>, ProviderError>(
            CompatStream {
                response,
                log,
                format: StreamFormat::Responses,
                idle_timeout_secs: None,
            },
        ),
{
    Ok(CompatStream { response, log, format: StreamFormat::Responses, idle_timeout_secs: None })
}

/// Why the parser of a stream failed.
pub enum Fault<E, F> {
    /// An error `F` of the provider, such as the stall of its lines, went through the parser.
    Provider(F),
    /// The stream could not be made sense of.
    Foreign(E),
}

/// What the parser of a stream came up with.
pub enum MessageEvent<M, U, D, C, E, F> {
    /// A message, perhaps with usage.
    Message(M, Option<ProviderUsage<U, D, C>>),
    /// An error.
    Failed(Fault<E, F>),
    /// Nothing more.
    End,
}

/// What a stream of messages does next.
pub enum MessageStep<M, U, D, C, E, F> {
    /// Logs a message.
    Log(LogEntry<M, U, D, C>),
    /// Ends in this error.
    Fail(F),
    /// Ends in a decoding error that tells of this.
    Undecodable(E),
    /// Is over.
    Finish,
}

/// A message that is to be logged, and to be handed out once it is.
pub struct LogEntry<M, U, D, C> {
    pub message: M,
    pub usage: Option<ProviderUsage<U, D, C>>,
}

/// What a stream does on what its parser came up with.
pub open spec fn after_event<M, U, D, C, E, F>(event: MessageEvent<M, U, D, C, E, F>) -> MessageStep<
    M,
    U,
    D,
    C,
    E,
    F,
> {
    match event {
        MessageEvent::Message(message, usage) => MessageStep::Log(LogEntry { message, usage }),
        MessageEvent::Failed(Fault::Provider(error)) => MessageStep::Fail(error),
        MessageEvent::Failed(Fault::Foreign(cause)) => MessageStep::Undecodable(cause),
        MessageEvent::End => MessageStep::Finish,
    }
}

/// Takes in what the parser came up with.
pub fn on_message_event<M, U, D, C, E, F>(event: MessageEvent<M, U, D, C, E, F>) -> (step: MessageStep<
    M,
    U,
    D,
    C,
    E,
    F,
>)
    ensures
        step == after_event(event),
{
    match event {
        MessageEvent::Message(message, usage) => MessageStep::Log(LogEntry { message, usage }),
        MessageEvent::Failed(Fault::Provider(error)) => MessageStep::Fail(error),
        MessageEvent::Failed(Fault::Foreign(cause)) => MessageStep::Undecodable(cause),
        MessageEvent::End => MessageStep::Finish,
    }
}

impl<M, U, D, C> LogEntry<M, U, D, C> {
    /// The token counts that are logged with the message.
    pub open spec fn counts(self) -> Option<U> {
        match self.usage {
            Some(usage) => Some(usage.usage),
            None => None,
        }
    }

    /// The token counts that are logged with the message.
    pub fn logged_usage(&self) -> (counts: Option<&U>)
        ensures
            match counts {
                Some(usage) => self.counts() == Some(*usage),
                None => self.counts() is None,
            },
    {
        match &self.usage {
            Some(usage) => Some(&usage.usage),
            None => None,
        }
    }

    /// What a stream does once the message was logged or was not.
    pub open spec fn after_logged<F>(self, logged: Result<(), F>) -> Result<
        (M, Option<ProviderUsage<U, D, C>>),
        F,
    > {
        match logged {
            Ok(_) => Ok((self.message, self.usage)),
            Err(error) => Err(error),
        }
    }

    /// Takes in whether the message was logged. Only a logged message is handed out.
    pub fn on_logged<F>(self, logged: Result<(), F>) -> (item: Result<
        (M, Option<ProviderUsage<U, D, C>>),
        F,
    >)
        ensures
            item == self.after_logged(logged),
    {
        match logged {
            Ok(_) => Ok((self.message, self.usage)),
            Err(error) => Err(error),
        }
    }
}

/// What the parser came up with, and whether that was logged, where it was to be.
pub struct Turn<M, U, D, C, E, F> {
    pub event: MessageEvent<M, U, D, C, E, F>,
    pub logged: Result<(), F>,
}

/// How a stream of messages ends.
pub enum StreamEnd<E, F> {
    Finished,
    Failed(F),
    Undecodable(E),
}

/// How far a stream has come: the messages that went to the log, the items handed out, and
/// how it ended, if it has.
pub struct Progress<M, U, D, C, E, F> {
    pub written: Seq<LogEntry<M, U, D, C>>,
    pub handed: Seq<(M, Option<ProviderUsage<U, D, C>>)>,
    pub end: Option<StreamEnd<E, F>>,
}

/// How far `turns` bring a stream. What comes after its end is not looked at.
pub open spec fn progress<M, U, D, C, E, F>(turns: Seq<Turn<M, U, D, C, E, F>>) -> Progress<M, U, D, C, E, F>
    decreases turns.len(),
{
    if turns.len() == 0 {
        Progress { written: seq![], handed: seq![], end: None }
    } else {
        let before = progress(turns.drop_last());
        if before.end is Some {
            before
        } else {
            match after_event(turns.last().event) {
                MessageStep::Finish => Progress { end: Some(StreamEnd::Finished), ..before },
                MessageStep::Fail(error) => Progress {
                    end: Some(StreamEnd::Failed(error)),
                    ..before
                },
                MessageStep::Undecodable(cause) => Progress {
                    end: Some(StreamEnd::Undecodable(cause)),
                    ..before
                },
                MessageStep::Log(entry) => match entry.after_logged(turns.last().logged) {
                    Ok(item) => Progress {
                        written: before.written.push(entry),
                        handed: before.handed.push(item),
                        end: None,
                    },
                    Err(error) => Progress {
                        written: before.written.push(entry),
                        end: Some(StreamEnd::Failed(error)),
                        ..before
                    },
                },
            }
        }
    }
}

/// What `turn` ends a stream in, where it does.
pub open spec fn turn_end<M, U, D, C, E, F>(turn: Turn<M, U, D, C, E, F>) -> Option<
    StreamEnd<E, F>,
> {
    match turn.event {
        MessageEvent::Message(_, _) => match turn.logged {
            Ok(_) => None,
            Err(error) => Some(StreamEnd::Failed(error)),
        },
        MessageEvent::Failed(Fault::Provider(error)) => Some(StreamEnd::Failed(error)),
        MessageEvent::Failed(Fault::Foreign(cause)) => Some(StreamEnd::Undecodable(cause)),
        MessageEvent::End => Some(StreamEnd::Finished),
    }
}

/// Messages are handed out as they were parsed, unchanged and in order, none left out, until
/// the first turn that ends the stream, and that is what it ends in.
pub proof fn messages_are_handed_out_in_order<M, U, D, C, E, F>(turns: Seq<Turn<M, U, D, C, E, F>>)
    ensures
        ({
            let through = progress(turns);
            let n = through.handed.len();
            &&& n <= turns.len()
            &&& forall|i: int|
                0 <= i < n ==> turn_end(#[trigger] turns[i]) is None && turns[i].event
                    == MessageEvent::<M, U, D, C, E, F>::Message(
                    through.handed[i].0,
                    through.handed[i].1,
                )
            &&& through.end is None ==> n == turns.len()
            &&& through.end is Some ==> n < turns.len() && through.end == turn_end(turns[n as int])
        }),
    decreases turns.len(),
{
    if turns.len() > 0 {
        let before = turns.drop_last();
        messages_are_handed_out_in_order(before);
        let earlier = progress(before);
        let through = progress(turns);
        let n = through.handed.len();
        assert forall|i: int| 0 <= i < n implies turn_end(#[trigger] turns[i]) is None
            && turns[i].event == MessageEvent::<M, U, D, C, E, F>::Message(
            through.handed[i].0,
            through.handed[i].1,
        ) by {
            if i < earlier.handed.len() {
                assert(before[i] == turns[i]);
            }
        }
        if earlier.end is Some {
            assert(before[n as int] == turns[n as int]);
        }
    }
}

/// Every message that is handed out was logged first; the log is ahead by one message at
/// most, and only where logging that one failed.
pub proof fn messages_are_logged_before_they_are_handed_out<M, U, D, C, E, F>(
    turns: Seq<Turn<M, U, D, C, E, F>>,
)
    ensures
        progress(turns).handed.len() <= progress(turns).written.len()
            <= progress(turns).handed.len() + 1,
        progress(turns).written.len() > progress(turns).handed.len() ==> progress(
            turns,
        ).end matches Some(StreamEnd::Failed(_)),
        forall|i: int|
            0 <= i < progress(turns).handed.len() ==> progress(turns).handed[i] == (
                (#[trigger] progress(turns).written[i]).message,
                progress(turns).written[i].usage,
            ),
    decreases turns.len(),
{
    if turns.len() > 0 {
        messages_are_logged_before_they_are_handed_out(turns.drop_last());
    }
}

/// A stream that has ended hands out nothing more, whatever comes.
pub proof fn an_ended_stream_stays_ended<M, U, D, C, E, F>(
    turns: Seq<Turn<M, U, D, C, E, F>>,
    later: Seq<Turn<M, U, D, C, E, F>>,
)
    requires
        progress(turns).end is Some,
    ensures
        progress(turns + later) == progress(turns),
    decreases later.len(),
{
    if later.len() == 0 {
        assert(turns + later =~= turns);
    } else {
        an_ended_stream_stays_ended(turns, later.drop_last());
        assert((turns + later).drop_last() =~= turns + later.drop_last());
    }
}

/// A stall reaches the consumer: the error that the guard of the lines ends in, once the
/// parser has passed it on, is the one that the stream of messages ends in.
pub proof fn a_stall_reaches_the_consumer<M, U, D, C, E>(
    idle_timeout_secs: u64,
    deadline: int,
    now: int,
    stalled: LineStep<E, Watching>,
    turns: Seq<Turn<M, U, D, C, E, ProviderError>>,
    failing: Turn<M, U, D, C, E, ProviderError>,
)
    requires
        stalled.outcome() == watch_step(
            idle_timeout_secs,
            deadline,
            LineEvent::<E>::TimedOut,
            now,
        ),
        progress(turns).end is None,
        failing.event == MessageEvent::<M, U, D, C, E, ProviderError>::Failed(
            Fault::Provider(stalled->Stalled_0),
        ),
    ensures
        progress(turns.push(failing)).end == Some(StreamEnd::<E, ProviderError>::Failed(stalled->Stalled_0)),
        stalled->Stalled_0@ == ErrorView::NetworkError(stall_words(idle_timeout_secs)),
        progress(turns.push(failing)).handed == progress(turns).handed,
{
    assert(turns.push(failing).drop_last() =~= turns);
}

} // verus!
