//! What may be relied on of one exchange, call by call.

use crate::error::ProviderError;
use crate::exchange::{
    ending, loggable, usage_part, usage_section, Answer, CountedReply, Ending, JsonPending,
    LogPending, ParsedReply, Posting, ReadReply, Refusal, Replies, ReplyPending,
};
use crate::json::{json_of, Json};
use crate::usage::{CostSource, ProviderUsage};
use serde_json::Value;
use vstd::prelude::*;

verus! {

/// The usage section of a reply with a member `usage` is that very member, whatever it holds.
/// It is null only where the reply has no such member or has null for it.
pub proof fn the_usage_section_is_the_member_usage(json: &Value, section: &Value)
    requires
        call_ensures(usage_section, (json,), section),
    ensures
        forall|members: Map<Seq<char>, Json>|
            json_of(*json) == Json::Object(members) && #[trigger] members.contains_key("usage"@)
                ==> json_of(*section) == members["usage"@],
        json_of(*section) == Json::Null <==> !(json_of(*json) is Object && json_of(
            *json,
        )->Object_0.contains_key("usage"@)) || json_of(*json)->Object_0["usage"@] == Json::Null,
{
}

/// Only the member `usage` decides the usage section: a reply that differs in other members
/// has the same.
pub proof fn other_members_leave_the_usage_section(
    members: Map<Seq<char>, Json>,
    key: Seq<char>,
    value: Json,
    part: Json,
)
    ensures
        key != "usage"@ ==> usage_part(Json::Object(members.insert(key, value))) == usage_part(
            Json::Object(members),
        ),
        usage_part(Json::Object(members.insert("usage"@, part))) == part,
        usage_part(Json::Object(members.remove("usage"@))) == Json::Null,
{
}

/// An exchange goes on to its post as it stands if and only if the log was opened; else the
/// log's error ends it.
pub proof fn a_post_stands_once_the_log_is_open<'a, X, E>(
    pending: LogPending<'a, X>,
    opened: Result<(), E>,
    next: Result<Posting<'a, X>, E>,
)
    requires
        call_ensures(LogPending::<'a, X>::on_log::<E>, (pending, opened), next),
    ensures
        next is Ok <==> opened is Ok,
        next is Ok ==> next->Ok_0.post == pending.post,
        next is Err ==> next->Err_0 == opened->Err_0,
{
}

/// A response is streamed or read as one value, as the post asked, and is handed on as it
/// came. An error is what the exchange is refused with, whether or not it could be logged.
pub proof fn a_response_is_taken_as_it_was_asked_for<'a, X, R, E, L>(
    posting: Posting<'a, X>,
    answered: Result<R, E>,
    answer: Answer<R, E>,
    logged: Result<(), L>,
    told: E,
)
    requires
        call_ensures(Posting::<'a, X>::on_answer::<R, E>, (posting, answered), answer),
        answer is Refused ==> call_ensures(
            Refusal::<E>::on_logged::<L>,
            (answer->Refused_0, logged),
            told,
        ),
    ensures
        answer is Refused <==> answered is Err,
        answer is Refused ==> told == answered->Err_0 && answer->Refused_0.error
            == answered->Err_0,
        answer is Stream <==> answered is Ok && posting.post.streaming,
        answer is Stream ==> answer->Stream_0 == answered->Ok_0,
        answer is Single <==> answered is Ok && !posting.post.streaming,
        answer is Single ==> answer->Single_0 == answered->Ok_0,
        answer is Single ==> answer->Single_1.model_name@
            == posting.post.model_config.model_name@,
{
}

/// A reply that was read is parsed as it was read; what kept it from being read ends the
/// exchange as it is.
pub proof fn a_reply_is_parsed_as_it_was_read<E>(
    reading: JsonPending,
    read: Result<Value, E>,
    next: Result<ReadReply, E>,
)
    requires
        call_ensures(JsonPending::on_json::<E>, (reading, read), next),
    ensures
        next is Ok <==> read is Ok,
        next is Ok ==> next->Ok_0.json == read->Ok_0,
        next is Ok ==> next->Ok_0.model_name == reading.model_name,
        next is Err ==> next->Err_0 == read->Err_0,
{
}

/// A parsed message is taken as it is; a message that cannot be parsed is a failed request
/// that says why.
pub proof fn a_message_is_taken_as_it_was_parsed<M>(
    reply: ReadReply,
    parsed: Result<M, String>,
    next: Result<ParsedReply<M>, ProviderError>,
)
    requires
        call_ensures(ReadReply::on_message::<M>, (reply, parsed), next),
    ensures
        next is Ok <==> parsed is Ok,
        next is Ok ==> next->Ok_0.message == parsed->Ok_0,
        next is Ok ==> next->Ok_0.json == reply.json,
        next is Ok ==> next->Ok_0.model_name == reply.model_name,
        next is Err ==> next->Err_0 is RequestFailed,
        next is Err ==> next->Err_0->RequestFailed_0@ == "Failed to parse message: "@
            + parsed->Err_0@,
{
}

/// From the parsed reply on: the reply is delivered if and only if it was logged, as the
/// message that was parsed, with the usage that was recorded, whatever that is. Its cost is
/// the one that the provider reported, where it reported one, and else as recorded; what is
/// logged are the counts that are delivered.
pub proof fn a_logged_reply_is_delivered_as_recorded<M, U, D, C, E>(
    parsed: ParsedReply<M>,
    counts: U,
    counted: CountedReply<M, U, D, C>,
    recorded: CountedReply<M, U, D, C>,
    cost: Option<C>,
    pending: ReplyPending<M, U, D, C>,
    logged_counts: Option<&U>,
    logged: Result<(), E>,
    reply: Result<(M, ProviderUsage<U, D, C>), E>,
)
    requires
        call_ensures(ParsedReply::<M>::on_counts::<U, D, C>, (parsed, counts), counted),
        recorded.json == counted.json,
        recorded.message == counted.message,
        call_ensures(CountedReply::<M, U, D, C>::on_cost, (recorded, cost), pending),
        call_ensures(ReplyPending::<M, U, D, C>::logged_usage, (&pending,), logged_counts),
        call_ensures(ReplyPending::<M, U, D, C>::on_logged::<E>, (pending, logged), reply),
    ensures
        counted.json == parsed.json,
        counted.message == parsed.message,
        counted.usage.model == parsed.model_name,
        counted.usage.usage == counts,
        counted.usage.metadata is None,
        counted.usage.cost is None,
        logged_counts is Some && *logged_counts->0 == recorded.usage.usage,
        reply is Ok <==> logged is Ok,
        reply is Err ==> reply->Err_0 == logged->Err_0,
        reply is Ok ==> {
            let (message, usage) = reply->Ok_0;
            &&& message == parsed.message
            &&& usage.model == recorded.usage.model
            &&& usage.usage == recorded.usage.usage
            &&& usage.metadata == recorded.usage.metadata
            &&& cost is Some ==> usage.cost == Some((cost->0, CostSource::ProviderReported))
            &&& cost is None ==> usage.cost == recorded.usage.cost
        },
{
}

/// One reply from the opened log to its delivery, where nothing fails: the parsed message
/// comes out, of the model that the post was for, with the counts and the cost that are read
/// from the member `usage` of its JSON, or from null without one.
pub proof fn a_reply_is_delivered_with_what_its_usage_tells<'a, X, R, M, U, D, C, E>(
    start: LogPending<'a, X>,
    posting: Posting<'a, X>,
    response: R,
    reading: JsonPending,
    json: Value,
    read: ReadReply,
    message: M,
    parsed: ParsedReply<M>,
    section: &Value,
    counts: spec_fn(Json) -> U,
    counted: CountedReply<M, U, D, C>,
    cost: spec_fn(Json) -> Option<C>,
    pending: ReplyPending<M, U, D, C>,
    reply: Result<(M, ProviderUsage<U, D, C>), E>,
)
    requires
        call_ensures(
            LogPending::<'a, X>::on_log::<E>,
            (start, Ok(())),
            Ok::<Posting<'a, X>, E>(posting),
        ),
        call_ensures(
            Posting::<'a, X>::on_answer::<R, E>,
            (posting, Ok(response)),
            Answer::<R, E>::Single(response, reading),
        ),
        call_ensures(
            JsonPending::on_json::<E>,
            (reading, Ok(json)),
            Ok::<ReadReply, E>(read),
        ),
        call_ensures(
            ReadReply::on_message::<M>,
            (read, Ok(message)),
            Ok::<ParsedReply<M>, ProviderError>(parsed),
        ),
        call_ensures(usage_section, (&parsed.json,), section),
        call_ensures(
            ParsedReply::<M>::on_counts::<U, D, C>,
            (parsed, counts(json_of(*section))),
            counted,
        ),
        call_ensures(
            CountedReply::<M, U, D, C>::on_cost,
            (counted, cost(json_of(*section))),
            pending,
        ),
        call_ensures(ReplyPending::<M, U, D, C>::on_logged::<E>, (pending, Ok(())), reply),
    ensures
        reply is Ok,
        reply->Ok_0.0 == message,
        reply->Ok_0.1.model@ == start.post.model_config.model_name@,
        reply->Ok_0.1.metadata is None,
        json_of(json).member("usage"@) matches Some(part) ==> {
            &&& reply->Ok_0.1.usage == counts(part)
            &&& cost(part) matches Some(amount) ==> reply->Ok_0.1.cost == Some(
                (amount, CostSource::ProviderReported),
            )
            &&& cost(part) is None ==> reply->Ok_0.1.cost is None
        },
        json_of(json).member("usage"@) is None ==> {
            &&& reply->Ok_0.1.usage == counts(Json::Null)
            &&& cost(Json::Null) matches Some(amount) ==> reply->Ok_0.1.cost == Some(
                (amount, CostSource::ProviderReported),
            )
            &&& cost(Json::Null) is None ==> reply->Ok_0.1.cost is None
        },
{
}

/// How a delivered exchange tells its usage: the counts that recording starts from, and the
/// cost, are read from the member `usage` of the reply's JSON itself, or from null without
/// one, and the model is the one that the request was for.
pub proof fn a_delivered_usage_is_read_from_the_member_usage<'a, X, R, M, U, D, C, E>(
    pending: LogPending<'a, X>,
    replies: Replies<R, M, U, D, C, E>,
    section: Json,
)
    requires
        ending(pending, replies) is Delivered,
        json_of(replies.json->Ok_0).member("usage"@) is Some ==> json_of(
            replies.json->Ok_0,
        ).member("usage"@) == Some(section),
        json_of(replies.json->Ok_0).member("usage"@) is None ==> section == Json::Null,
    ensures
        ({
            let usage = ending(pending, replies)->Delivered_1;
            let recorded = (replies.record)(
                ProviderUsage {
                    model: pending.post.model_config.model_name,
                    usage: (replies.counts)(section),
                    metadata: None,
                    cost: None,
                },
                json_of(replies.json->Ok_0),
            );
            &&& ending(pending, replies)->Delivered_0 == replies.message->Ok_0
            &&& usage.model == recorded.model
            &&& usage.usage == recorded.usage
            &&& usage.metadata == recorded.metadata
            &&& (replies.cost)(section) matches Some(amount) ==> usage.cost == Some(
                (amount, CostSource::ProviderReported),
            )
            &&& (replies.cost)(section) is None ==> usage.cost == recorded.cost
        }),
{
}

/// A message is logged as the JSON that it is written as, and as null only where it cannot be
/// written or is written as null.
pub proof fn a_message_is_logged_as_it_is_written<E>(
    serialized: Result<Value, E>,
    value: Value,
)
    requires
        call_ensures(loggable::<E>, (serialized,), value),
    ensures
        serialized is Ok ==> value == serialized->Ok_0,
        serialized is Err ==> json_of(value) is Null,
{
}

/// A usage starts with its model and counts alone, and a cost is added to it without changing
/// anything else.
pub proof fn a_cost_is_added_and_nothing_else<U, D, C>(
    model: String,
    counts: U,
    usage: ProviderUsage<U, D, C>,
    recorded: ProviderUsage<U, D, C>,
    cost: C,
    source: CostSource,
    total: ProviderUsage<U, D, C>,
)
    requires
        call_ensures(ProviderUsage::<U, D, C>::new, (model, counts), usage),
        call_ensures(
            ProviderUsage::<U, D, C>::with_cost,
            (recorded, cost, source),
            total,
        ),
    ensures
        usage.model == model,
        usage.usage == counts,
        usage.metadata is None,
        usage.cost is None,
        total.model == recorded.model,
        total.usage == recorded.usage,
        total.metadata == recorded.metadata,
        total.cost == Some((cost, source)),
{
}

} // verus!
