//! One exchange with a provider, from the request body to the reply.
//!
//! Opening the log, posting, reading and parsing are done elsewhere. Each stage here holds
//! what the next of these needs, and takes in what came of it. An error `E` that one of them
//! came to is passed on as it is.

use crate::error::{request_failed, ErrorView, FailureView, ProviderError};
use crate::json::{default_value, json_of, member, null, Json};
use crate::request::ModelConfig;
use crate::usage::{priced, CostSource, ProviderUsage};
use serde_json::Value;
use vstd::prelude::*;

verus! {

/// A request that is ready to be posted.
pub struct Post<'a, X> {
    /// The path below the base URL.
    pub path: String,
    /// The configuration that the request's headers are taken from.
    pub model_config: &'a ModelConfig<X>,
    /// Whether a streamed reply is asked for.
    pub streaming: bool,
    pub payload: Value,
}

/// The request log is to be opened for `post`.
pub struct LogPending<'a, X> {
    pub post: Post<'a, X>,
}

/// `post` is to be sent, as it stands in every attempt.
pub struct Posting<'a, X> {
    pub post: Post<'a, X>,
}

/// What comes of a posted request, with a response `R`.
pub enum Answer<R, E> {
    /// There is no response. The error is to be logged.
    Refused(Refusal<E>),
    /// The response is to be streamed.
    Stream(R),
    /// The response is to be read as one JSON value.
    Single(R, JsonPending),
}

/// The error that a posted request came to is to be logged.
pub struct Refusal<E> {
    pub error: E,
}

/// The response is to be read as JSON.
pub struct JsonPending {
    pub model_name: String,
}

/// A message is to be parsed out of `json`.
pub struct ReadReply {
    pub model_name: String,
    pub json: Value,
}

/// The token counts of `message` are to be found in `json`.
pub struct ParsedReply<M> {
    pub model_name: String,
    pub json: Value,
    pub message: M,
}

/// What else `json` tells of the reply is to be recorded in `usage`, and its cost to be found.
pub struct CountedReply<M, U, D, C> {
    pub json: Value,
    pub message: M,
    pub usage: ProviderUsage<U, D, C>,
}

/// `message` and its token counts are to be logged.
pub struct ReplyPending<M, U, D, C> {
    pub message: M,
    pub usage: ProviderUsage<U, D, C>,
}

impl<'a, X> LogPending<'a, X> {
    /// Where the exchange goes once the log was opened or was not.
    pub open spec fn after_log<E>(self, opened: Result<(), E>) -> Result<Posting<'a, X>, E> {
        match opened {
            Ok(_) => Ok(Posting { post: self.post }),
            Err(error) => Err(error),
        }
    }

    /// Takes in whether the log was opened. Without a log nothing is posted.
    pub fn on_log<E>(self, opened: Result<(), E>) -> (next: Result<Posting<'a, X>, E>)
        ensures
            next == self.after_log(opened),
    {
        match opened {
            Ok(_) => Ok(Posting { post: self.post }),
            Err(error) => Err(error),
        }
    }
}

impl<'a, X> Posting<'a, X> {
    /// Where the exchange goes once there is a response or none.
    pub open spec fn after_answer<R, E>(self, answered: Result<R, E>) -> Answer<R, E> {
        match answered {
            Err(error) => Answer::Refused(Refusal { error }),
            Ok(response) => if self.post.streaming {
                Answer::Stream(response)
            } else {
                Answer::Single(
                    response,
                    JsonPending { model_name: self.post.model_config.model_name },
                )
            },
        }
    }

    /// Takes in what came of posting, after all retries.
    pub fn on_answer<R, E>(self, answered: Result<R, E>) -> (answer: Answer<R, E>)
        ensures
            answer == self.after_answer(answered),
    {
        match answered {
            Err(error) => Answer::Refused(Refusal { error }),
            Ok(response) => if self.post.streaming {
                Answer::Stream(response)
            } else {
                Answer::Single(
                    response,
                    JsonPending { model_name: self.post.model_config.model_name.clone() },
                )
            },
        }
    }
}

impl<E> Refusal<E> {
    /// Takes in whether the error was logged. It is the outcome either way.
    pub fn on_logged<L>(self, _logged: Result<(), L>) -> (error: E)
        ensures
            error == self.error,
    {
        self.error
    }
}

impl JsonPending {
    /// Where the exchange goes once the response was read or was not.
    pub open spec fn after_json<E>(self, read: Result<Value, E>) -> Result<ReadReply, E> {
        match read {
            Ok(json) => Ok(ReadReply { model_name: self.model_name, json }),
            Err(error) => Err(error),
        }
    }

    /// Takes in what the response holds.
    pub fn on_json<E>(self, read: Result<Value, E>) -> (next: Result<ReadReply, E>)
        ensures
            next == self.after_json(read),
    {
        match read {
            Ok(json) => Ok(ReadReply { model_name: self.model_name, json }),
            Err(error) => Err(error),
        }
    }
}

impl ReadReply {
    /// Where the exchange goes once the message was parsed or was not.
    pub open spec fn after_message<M>(self, parsed: Result<M, String>) -> Result<
        ParsedReply<M>,
        ErrorView,
    > {
        match parsed {
            Ok(message) => Ok(
                ParsedReply { model_name: self.model_name, json: self.json, message },
            ),
            Err(why) => Err(ErrorView::RequestFailed("Failed to parse message: "@ + why@)),
        }
    }

    /// Takes in the message, or why there is none.
    pub fn on_message<M>(self, parsed: Result<M, String>) -> (next: Result<
        ParsedReply<M>,
        ProviderError,
    >)
        ensures
            self.after_message(parsed) == match next {
                Ok(reply) => Ok::<ParsedReply<M>, ErrorView>(reply),
                Err(error) => Err::<ParsedReply<M>, ErrorView>(error@),
            },
    {
        match parsed {
            Ok(message) => Ok(
                ParsedReply { model_name: self.model_name, json: self.json, message },
            ),
            Err(why) => Err(request_failed("Failed to parse message: ", why.as_str())),
        }
    }
}

/// The part of a reply that tells its usage: its member `usage`, or null without one.
pub open spec fn usage_part(json: Json) -> Json {
    match json.member("usage"@) {
        Some(part) => part,
        None => Json::Null,
    }
}

/// The part of `json` that tells the reply's usage.
pub fn usage_section(json: &Value) -> (part: &Value)
    ensures
        json_of(*part) == usage_part(json_of(*json)),
{
    match member(json, "usage") {
        Some(part) => part,
        None => null(),
    }
}

impl<M> ParsedReply<M> {
    /// Where the exchange goes with the token counts that the reply tells.
    pub open spec fn after_counts<U, D, C>(self, counts: U) -> CountedReply<M, U, D, C> {
        CountedReply {
            json: self.json,
            message: self.message,
            usage: ProviderUsage {
                model: self.model_name,
                usage: counts,
                metadata: None,
                cost: None,
            },
        }
    }

    /// Takes in the token counts that the reply tells.
    pub fn on_counts<U, D, C>(self, counts: U) -> (next: CountedReply<M, U, D, C>)
        ensures
            next == self.after_counts::<U, D, C>(counts),
    {
        CountedReply {
            json: self.json,
            message: self.message,
            usage: ProviderUsage::new(self.model_name, counts),
        }
    }
}

impl<M, U, D, C> CountedReply<M, U, D, C> {
    /// Where the exchange goes with the cost that the reply tells, if it tells one.
    pub open spec fn after_cost(self, cost: Option<C>) -> ReplyPending<M, U, D, C> {
        ReplyPending { message: self.message, usage: priced(self.usage, cost) }
    }

    /// Takes in the cost that the reply tells, if it tells one.
    pub fn on_cost(self, cost: Option<C>) -> (next: ReplyPending<M, U, D, C>)
        ensures
            next == self.after_cost(cost),
    {
        let usage = match cost {
            Some(amount) => self.usage.with_cost(amount, CostSource::ProviderReported),
            None => self.usage,
        };
        ReplyPending { message: self.message, usage }
    }
}

impl<M, U, D, C> ReplyPending<M, U, D, C> {
    /// The token counts that are logged with the message: those of the final usage.
    pub fn logged_usage(&self) -> (counts: Option<&U>)
        ensures
            counts == Some(&self.usage.usage),
    {
        Some(&self.usage.usage)
    }

    /// What the exchange comes to once the reply was logged or was not.
    pub open spec fn after_logged<E>(self, logged: Result<(), E>) -> Result<
        (M, ProviderUsage<U, D, C>),
        E,
    > {
        match logged {
            Ok(_) => Ok((self.message, self.usage)),
            Err(error) => Err(error),
        }
    }

    /// Takes in whether the reply was logged. Only a logged reply is delivered.
    pub fn on_logged<E>(self, logged: Result<(), E>) -> (reply: Result<
        (M, ProviderUsage<U, D, C>),
        E,
    >)
        ensures
            reply == self.after_logged(logged),
    {
        match logged {
            Ok(_) => Ok((self.message, self.usage)),
            Err(error) => Err(error),
        }
    }
}

/// What is logged of a message: the message as JSON, or null where it cannot be written so.
pub fn loggable<E>(serialized: Result<Value, E>) -> (value: Value)
    ensures
        match serialized {
            Ok(json) => value == json,
            Err(_) => json_of(value) == Json::Null,
        },
{
    match serialized {
        Ok(json) => json,
        Err(_) => default_value(),
    }
}

/// What came of everything that one exchange had done elsewhere, and what a reply's JSON is
/// read as there.
#[verifier::reject_recursive_types(U)]
#[verifier::reject_recursive_types(D)]
#[verifier::reject_recursive_types(C)]
pub struct Replies<R, M, U, D, C, E> {
    pub log_opened: Result<(), E>,
    pub answered: Result<R, E>,
    pub json: Result<Value, E>,
    pub message: Result<M, String>,
    /// The token counts that a usage section tells.
    pub counts: spec_fn(Json) -> U,
    /// What recording what a reply tells makes of its usage.
    pub record: spec_fn(ProviderUsage<U, D, C>, Json) -> ProviderUsage<U, D, C>,
    /// The cost that a usage section tells, if it tells one.
    pub cost: spec_fn(Json) -> Option<C>,
    pub logged: Result<(), E>,
}

/// How an exchange ends.
pub enum Ending<R, M, U, D, C, E> {
    Failed(FailureView<E>),
    Streamed(R),
    Delivered(M, ProviderUsage<U, D, C>),
}

/// The end of the exchange that `pending` opens, stage by stage.
pub open spec fn ending<'a, X, R, M, U, D, C, E>(
    pending: LogPending<'a, X>,
    replies: Replies<R, M, U, D, C, E>,
) -> Ending<R, M, U, D, C, E> {
    match pending.after_log(replies.log_opened) {
        Err(error) => Ending::Failed(FailureView::Passed(error)),
        Ok(posting) => match posting.after_answer(replies.answered) {
            Answer::Refused(refusal) => Ending::Failed(FailureView::Passed(refusal.error)),
            Answer::Stream(response) => Ending::Streamed(response),
            Answer::Single(_, reading) => match reading.after_json(replies.json) {
                Err(error) => Ending::Failed(FailureView::Passed(error)),
                Ok(read) => match read.after_message(replies.message) {
                    Err(error) => Ending::Failed(FailureView::Made(error)),
                    Ok(parsed) => match pending_reply(parsed, replies).after_logged(
                        replies.logged,
                    ) {
                        Err(error) => Ending::Failed(FailureView::Passed(error)),
                        Ok((message, usage)) => Ending::Delivered(message, usage),
                    },
                },
            },
        },
    }
}

/// The reply that is to be logged once `parsed` was counted, recorded and priced.
pub open spec fn pending_reply<R, M, U, D, C, E>(
    parsed: ParsedReply<M>,
    replies: Replies<R, M, U, D, C, E>,
) -> ReplyPending<M, U, D, C> {
    let section = usage_part(json_of(parsed.json));
    let counted = parsed.after_counts::<U, D, C>((replies.counts)(section));
    let recorded = CountedReply {
        usage: (replies.record)(counted.usage, json_of(counted.json)),
        ..counted
    };
    recorded.after_cost((replies.cost)(section))
}

/// The usage that a reply of `model` with `json` is delivered with: its token counts and its
/// cost are those that its usage section tells.
pub open spec fn told_usage<R, M, U, D, C, E>(
    model: String,
    json: Json,
    replies: Replies<R, M, U, D, C, E>,
) -> ProviderUsage<U, D, C> {
    priced(
        (replies.record)(
            ProviderUsage {
                model,
                usage: (replies.counts)(usage_part(json)),
                metadata: None,
                cost: None,
            },
            json,
        ),
        (replies.cost)(usage_part(json)),
    )
}

/// A reply is delivered if and only if no stream was asked for and nothing failed, and then
/// it is the parsed message, with the usage that its JSON tells of the model that the request
/// was for.
pub proof fn delivered_when_nothing_failed<'a, X, R, M, U, D, C, E>(
    pending: LogPending<'a, X>,
    replies: Replies<R, M, U, D, C, E>,
)
    ensures
        ending(pending, replies) is Delivered <==> {
            &&& !pending.post.streaming
            &&& replies.log_opened is Ok
            &&& replies.answered is Ok
            &&& replies.json is Ok
            &&& replies.message is Ok
            &&& replies.logged is Ok
        },
        ending(pending, replies) matches Ending::Delivered(message, usage) ==> {
            &&& message == replies.message->Ok_0
            &&& usage == told_usage(
                pending.post.model_config.model_name,
                json_of(replies.json->Ok_0),
                replies,
            )
        },
{
}

/// A reply without a usage section is taken as one whose usage section is null: where nothing
/// else is recorded of the two, they are delivered alike.
pub proof fn missing_usage_is_null_usage<'a, X, R, M, U, D, C, E>(
    pending: LogPending<'a, X>,
    replies: Replies<R, M, U, D, C, E>,
    without: Value,
    null: Value,
)
    requires
        json_of(without).member("usage"@) is None,
        json_of(null).member("usage"@) == Some(Json::Null),
        forall|usage: ProviderUsage<U, D, C>| #[trigger]
            (replies.record)(usage, json_of(without)) == (replies.record)(usage, json_of(null)),
    ensures
        usage_part(json_of(without)) == usage_part(json_of(null)),
        ending(pending, Replies { json: Ok(without), ..replies }) == ending(
            pending,
            Replies { json: Ok(null), ..replies },
        ),
{
}

/// A response is streamed if and only if a stream was asked for, the log was opened and
/// there is a response. What a streamed response holds is not read here.
pub proof fn streamed_when_asked_for<'a, X, R, M, U, D, C, E>(
    pending: LogPending<'a, X>,
    replies: Replies<R, M, U, D, C, E>,
)
    ensures
        ending(pending, replies) is Streamed <==> {
            &&& pending.post.streaming
            &&& replies.log_opened is Ok
            &&& replies.answered is Ok
        },
        ending(pending, replies) matches Ending::Streamed(response) ==> replies.answered == Ok::<
            R,
            E,
        >(response),
{
}

/// The first failure is reported, whatever else would have come: of opening the log, of the
/// post, and of a reply that is not streamed also of reading it, of parsing its message and
/// of logging that. All but the parser's are passed on as they came.
pub proof fn first_failure_is_reported<'a, X, R, M, U, D, C, E>(
    pending: LogPending<'a, X>,
    replies: Replies<R, M, U, D, C, E>,
)
    ensures
        ({
            let end = ending(pending, replies);
            let posted = replies.log_opened is Ok;
            let read = posted && replies.answered is Ok && !pending.post.streaming;
            let parsed = read && replies.json is Ok;
            let written = parsed && replies.message is Ok;
            &&& replies.log_opened matches Err(error) ==> end == Ending::<R, M, U, D, C, E>::Failed(
                FailureView::Passed(error),
            )
            &&& posted ==> (replies.answered matches Err(error) ==> end == Ending::<
                R,
                M,
                U,
                D,
                C,
                E,
            >::Failed(FailureView::Passed(error)))
            &&& read ==> (replies.json matches Err(error) ==> end == Ending::<
                R,
                M,
                U,
                D,
                C,
                E,
            >::Failed(FailureView::Passed(error)))
            &&& parsed ==> (replies.message matches Err(why) ==> end == Ending::<
                R,
                M,
                U,
                D,
                C,
                E,
            >::Failed(
                FailureView::Made(
                    ErrorView::RequestFailed("Failed to parse message: "@ + why@),
                ),
            ))
            &&& written ==> (replies.logged matches Err(error) ==> end == Ending::<
                R,
                M,
                U,
                D,
                C,
                E,
            >::Failed(FailureView::Passed(error)))
        }),
{
}

} // verus!
