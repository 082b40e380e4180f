//! What may be relied on of the models that a provider lists, from the JSON of its answer to
//! the list.

use crate::error::{Failure, ProviderError};
use crate::json::{json_of, text_member, Json};
use crate::models::{
    data_items, lemma_named_count, list_models, lists, models_path, models_view, read_models,
    text_at, words, ModelsFetch, ModelsReply, ModelsView,
};
use crate::provider::OpenAiCompatibleProvider;
use crate::text::{text_order, texts};
use crate::text_laws::the_first_difference_orders_strings;
use serde_json::Value;
use vstd::prelude::*;

verus! {

/// Objects have the members that they are made of, and nothing else has any; likewise for the
/// elements of arrays and the characters of strings.
pub proof fn json_values_hold_what_they_are_made_of(
    json: Json,
    members: Map<Seq<char>, Json>,
    key: Seq<char>,
    items: Seq<Json>,
    chars: Seq<char>,
)
    ensures
        members.contains_key(key) ==> Json::Object(members).member(key) == Some(members[key]),
        !members.contains_key(key) ==> Json::Object(members).member(key) is None,
        !(json is Object) ==> json.member(key) is None,
        Json::Array(items).elements() == Some(items),
        !(json is Array) ==> json.elements() is None,
        Json::Text(chars).text() == Some(chars),
        !(json is Text) ==> json.text() is None,
{
}

/// The text of a member is found if and only if the value is an object with a string for that
/// key, and then it is that string.
pub proof fn a_text_member_is_the_string_of_its_key(
    value: &Value,
    key: &str,
    found: Option<&str>,
)
    requires
        call_ensures(text_member, (value, key), found),
    ensures
        found is Some <==> json_of(*value) is Object && json_of(*value)->Object_0.contains_key(
            key@,
        ) && json_of(*value)->Object_0[key@] is Text,
        found is Some ==> json_of(*value)->Object_0[key@] == Json::Text(found->0@),
{
}

/// Models are asked for at `models`.
pub proof fn models_are_asked_for_at_their_path(path: &'static str)
    requires
        call_ensures(models_path, (), path),
    ensures
        path@ == "models"@,
{
}

/// As many elements pass a test as are mapped to a value, where the test is for that value.
proof fn lemma_filter_counts<A, B>(
    items: Seq<A>,
    passes: spec_fn(A) -> bool,
    map: spec_fn(A) -> B,
    value: B,
)
    requires
        forall|item: A| #[trigger] passes(item) <==> map(item) == value,
    ensures
        items.filter(passes).len() == items.map_values(map).to_multiset().count(value),
    decreases items.len(),
{
    broadcast use vstd::multiset::group_multiset_axioms;
    broadcast use vstd::seq_lib::group_to_multiset_ensures;

    reveal(Seq::filter);
    let mapped = items.map_values(map);
    if items.len() == 0 {
        assert(mapped =~= seq![]);
    } else {
        let before = items.drop_last();
        lemma_filter_counts(before, passes, map, value);
        assert(mapped =~= before.map_values(map).push(map(items.last())));
        assert(passes(items.last()) <==> map(items.last()) == value);
    }
}

/// Listed strings ascend, and each is listed as often as it was read.
proof fn lemma_listed(
    reply: ModelsView,
    models: Result<Vec<String>, ProviderError>,
    id: Seq<char>,
)
    requires
        lists(reply, models),
        reply.error is None,
        reply.data is Some,
    ensures
        models is Ok,
        forall|i: int, j: int|
            0 <= i < j < models->Ok_0@.len() ==> {
                let a = (#[trigger] models->Ok_0@[i])@;
                let b = (#[trigger] models->Ok_0@[j])@;
                a.is_prefix_of(b) || exists|p: int|
                    #![trigger a[p]]
                    0 <= p < a.len() && p < b.len() && a.take(p) == b.take(p) && a[p] < b[p]
            },
        models->Ok_0@.filter(|s: String| s@ == id).len() == reply.data->0.to_multiset().count(
            Some(id),
        ),
{
    let found = models->Ok_0@;
    assert forall|i: int, j: int| 0 <= i < j < found.len() implies {
        let a = (#[trigger] found[i])@;
        let b = (#[trigger] found[j])@;
        a.is_prefix_of(b) || exists|p: int|
            #![trigger a[p]]
            0 <= p < a.len() && p < b.len() && a.take(p) == b.take(p) && a[p] < b[p]
    } by {
        let order = text_order();
        assert(texts(found)[i] == found[i]@ && texts(found)[j] == found[j]@);
        assert(order(texts(found)[i], texts(found)[j]));
        the_first_difference_orders_strings(found[i]@, found[j]@);
    }
    lemma_filter_counts(found, |s: String| s@ == id, |s: String| s@, id);
    lemma_named_count(reply.data->0, id);
}

/// What is read of an answer: whether it has a member `error` and the string that this has
/// for `message`, and, for each element of the array `data`, the string that it has for `id`,
/// whatever other members it has.
pub proof fn an_answer_is_read_by_its_keys(json: &Value, reply: ModelsReply)
    requires
        call_ensures(read_models, (json,), reply),
    ensures
        reply.error is Some <==> json_of(*json) is Object && json_of(
            *json,
        )->Object_0.contains_key("error"@),
        reply.error matches Some(Some(message)) ==> {
            let error = json_of(*json)->Object_0["error"@];
            &&& error is Object
            &&& error->Object_0.contains_key("message"@)
            &&& error->Object_0["message"@] == Json::Text(message@)
        },
        reply.error == Some(None::<String>) ==> {
            let error = json_of(*json)->Object_0["error"@];
            !(error is Object && error->Object_0.contains_key("message"@)
                && error->Object_0["message"@] is Text)
        },
        reply.data is Some <==> json_of(*json) is Object && json_of(
            *json,
        )->Object_0.contains_key("data"@) && json_of(*json)->Object_0["data"@] is Array,
        reply.data is Some ==> {
            let items = json_of(*json)->Object_0["data"@]->Array_0;
            &&& reply.data->0@.len() == items.len()
            &&& forall|k: int|
                #![trigger reply.data->0@[k]]
                #![trigger items[k]]
                0 <= k < items.len() ==> {
                    &&& reply.data->0@[k] matches Some(id) ==> items[k] is Object
                        && items[k]->Object_0.contains_key("id"@) && items[k]->Object_0["id"@]
                        == Json::Text(id@)
                    &&& reply.data->0@[k] is None ==> !(items[k] is Object
                        && items[k]->Object_0.contains_key("id"@)
                        && items[k]->Object_0["id"@] is Text)
                }
        },
{
    if reply.data is Some {
        let items = json_of(*json)->Object_0["data"@]->Array_0;
        let ids = reply.data->0@;
        assert(reply@.data->0 == models_view(json_of(*json)).data->0);
        assert(reply@.data->0.len() == ids.len());
        assert forall|k: int|
            #![trigger ids[k]]
            #![trigger items[k]]
            0 <= k < items.len() implies {
            &&& ids[k] matches Some(id) ==> items[k] is Object && items[k]->Object_0.contains_key(
                "id"@,
            ) && items[k]->Object_0["id"@] == Json::Text(id@)
            &&& ids[k] is None ==> !(items[k] is Object && items[k]->Object_0.contains_key("id"@)
                && items[k]->Object_0["id"@] is Text)
        } by {
            assert(reply@.data->0[k] == words(ids[k]));
            assert(models_view(json_of(*json)).data->0[k] == text_at(
                items[k],
                "id"@,
            ));
        }
    }
}

/// What was read is listed: where no error was read and a list was, each name in it is listed
/// as often as it was read, in ascending order.
pub proof fn what_was_read_is_listed(
    reply: ModelsReply,
    models: Result<Vec<String>, ProviderError>,
    id: Seq<char>,
)
    requires
        call_ensures(list_models, (reply,), models),
    ensures
        reply.error matches Some(Some(message)) ==> models is Err
            && models->Err_0 is Authentication && models->Err_0->Authentication_0@ == message@,
        reply.error == Some(None::<String>) ==> models is Err && models->Err_0 is Authentication
            && models->Err_0->Authentication_0@ == "unknown error"@,
        reply.error is None && reply.data is None ==> models is Err
            && models->Err_0 is RequestFailed && models->Err_0->RequestFailed_0@
            == "Missing 'data' array in models response"@,
        reply.error is None && reply.data is Some ==> {
            &&& models is Ok
            &&& models->Ok_0@.filter(|s: String| s@ == id).len() == reply.data->0@.filter(
                |s: Option<String>| s is Some && s->0@ == id,
            ).len()
            &&& forall|i: int, j: int|
                0 <= i < j < models->Ok_0@.len() ==> {
                    let a = (#[trigger] models->Ok_0@[i])@;
                    let b = (#[trigger] models->Ok_0@[j])@;
                    a.is_prefix_of(b) || exists|p: int|
                        #![trigger a[p]]
                        0 <= p < a.len() && p < b.len() && a.take(p) == b.take(p) && a[p] < b[p]
                }
        },
{
    if reply.error is None && reply.data is Some {
        lemma_listed(reply@, models, id);
        lemma_filter_counts(
            reply.data->0@,
            |s: Option<String>| s is Some && s->0@ == id,
            |s: Option<String>| words(s),
            Some(id),
        );
    }
}

/// The models of an answer without a member `error` whose member `data` is an array: a string
/// is listed as often as there are elements that have it for `id`, whatever other members they
/// have, and the list ascends by the first character in which two of its strings differ.
pub proof fn models_are_listed_by_their_ids<A, E>(
    provider: &OpenAiCompatibleProvider<A>,
    json: &Value,
    items: Seq<Json>,
    models: Result<Vec<String>, Failure<E>>,
    id: Seq<char>,
)
    requires
        call_ensures(
            OpenAiCompatibleProvider::<A>::fetch_supported_models::<E>,
            (provider, ModelsFetch::Answered(json)),
            models,
        ),
        json_of(*json) is Object,
        !json_of(*json)->Object_0.contains_key("error"@),
        json_of(*json)->Object_0.contains_key("data"@),
        json_of(*json)->Object_0["data"@] == Json::Array(items),
    ensures
        models is Ok,
        models->Ok_0@.filter(|s: String| s@ == id).len() == items.filter(
            |item: Json|
                item is Object && item->Object_0.contains_key("id"@) && item->Object_0["id"@]
                    == Json::Text(id),
        ).len(),
        forall|i: int, j: int|
            0 <= i < j < models->Ok_0@.len() ==> {
                let a = (#[trigger] models->Ok_0@[i])@;
                let b = (#[trigger] models->Ok_0@[j])@;
                a.is_prefix_of(b) || exists|p: int|
                    #![trigger a[p]]
                    0 <= p < a.len() && p < b.len() && a.take(p) == b.take(p) && a[p] < b[p]
            },
{
    let view = models_view(json_of(*json));
    lemma_listed(view, Ok(models->Ok_0), id);
    let id_of = |item: Json| text_at(item, "id"@);
    assert(view.data->0 =~= items.map_values(id_of));
    lemma_filter_counts(
        items,
        |item: Json|
            item is Object && item->Object_0.contains_key("id"@) && item->Object_0["id"@]
                == Json::Text(id),
        id_of,
        Some(id),
    );
}

/// An answer with a member `error` lists nothing, whatever else it has: it is an
/// authentication error in the words that the error has for `message`, where that is a string.
pub proof fn an_error_in_the_answer_is_told<A, E>(
    provider: &OpenAiCompatibleProvider<A>,
    json: &Value,
    models: Result<Vec<String>, Failure<E>>,
)
    requires
        call_ensures(
            OpenAiCompatibleProvider::<A>::fetch_supported_models::<E>,
            (provider, ModelsFetch::Answered(json)),
            models,
        ),
        json_of(*json) is Object,
        json_of(*json)->Object_0.contains_key("error"@),
    ensures
        models is Err,
        models->Err_0 is Made,
        models->Err_0->Made_0 is Authentication,
        ({
            let error = json_of(*json)->Object_0["error"@];
            let words = models->Err_0->Made_0->Authentication_0@;
            if error is Object && error->Object_0.contains_key("message"@)
                && error->Object_0["message"@] is Text {
                error->Object_0["message"@] == Json::Text(words)
            } else {
                words == "unknown error"@
            }
        }),
{
}

/// An answer without an error and without an array `data` is a failed request.
pub proof fn an_answer_without_a_list_is_told<A, E>(
    provider: &OpenAiCompatibleProvider<A>,
    json: &Value,
    models: Result<Vec<String>, Failure<E>>,
)
    requires
        call_ensures(
            OpenAiCompatibleProvider::<A>::fetch_supported_models::<E>,
            (provider, ModelsFetch::Answered(json)),
            models,
        ),
        json_of(*json) is Object ==> {
            &&& !json_of(*json)->Object_0.contains_key("error"@)
            &&& json_of(*json)->Object_0.contains_key("data"@) ==> !(json_of(
                *json,
            )->Object_0["data"@] is Array)
        },
    ensures
        models is Err,
        models->Err_0 is Made,
        models->Err_0->Made_0 is RequestFailed,
        models->Err_0->Made_0->RequestFailed_0@ == "Missing 'data' array in models response"@,
{
}

/// Where there is no answer, what kept it away is told: a question that did not get through is
/// a failed request in the words that say why, and a refusal is passed on as it came.
pub proof fn a_missing_answer_is_told<A, E>(
    provider: &OpenAiCompatibleProvider<A>,
    why: String,
    unreachable: Result<Vec<String>, Failure<E>>,
    error: E,
    refused: Result<Vec<String>, Failure<E>>,
)
    requires
        call_ensures(
            OpenAiCompatibleProvider::<A>::fetch_supported_models::<E>,
            (provider, ModelsFetch::Unreachable(why)),
            unreachable,
        ),
        call_ensures(
            OpenAiCompatibleProvider::<A>::fetch_supported_models::<E>,
            (provider, ModelsFetch::Refused(error)),
            refused,
        ),
    ensures
        unreachable is Err,
        unreachable->Err_0 is Made,
        unreachable->Err_0->Made_0 is RequestFailed,
        unreachable->Err_0->Made_0->RequestFailed_0@ == why@,
        refused is Err,
        refused->Err_0 is Passed,
        refused->Err_0->Passed_0 == error,
{
}

/// Members of an element other than `id` do not matter: changing one leaves what is read of
/// the answer.
pub proof fn other_members_of_an_element_do_not_matter(
    members: Map<Seq<char>, Json>,
    items: Seq<Json>,
    k: int,
    key: Seq<char>,
    value: Json,
)
    requires
        0 <= k < items.len(),
        items[k] is Object,
        key != "id"@,
    ensures
        models_view(Json::Object(members.insert("data"@, Json::Array(items)))).data
            == models_view(
            Json::Object(
                members.insert(
                    "data"@,
                    Json::Array(
                        items.update(k, Json::Object(items[k]->Object_0.insert(key, value))),
                    ),
                ),
            ),
        ).data,
        data_items(Json::Object(members.insert("data"@, Json::Array(items)))) == Some(items),
{
    let changed = items.update(k, Json::Object(items[k]->Object_0.insert(key, value)));
    let id_of = |item: Json| text_at(item, "id"@);
    assert(items.map_values(id_of) =~= changed.map_values(id_of));
}

} // verus!
