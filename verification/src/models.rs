//! The models that a provider says it has.

use crate::error::{ErrorView, Failure, FailureView, ProviderError};
use crate::json::{json_of, member, text_member, Json};
use crate::provider::OpenAiCompatibleProvider;
use crate::text::{sort_texts, sorted_texts_are_unique, text_order, texts};
use serde_json::Value;
use vstd::prelude::*;
use vstd::relations::sorted_by;

verus! {

/// What is read of a provider's answer to the question for its models.
#[derive(Debug, PartialEq, Eq)]
pub struct ModelsReply {
    /// Whether the answer names an error, and in which words, where it has words.
    pub error: Option<Option<String>>,
    /// Whether the answer lists models, and the name of each, where it has one.
    pub data: Option<Vec<Option<String>>>,
}

/// A [`ModelsReply`] with its strings as characters.
pub struct ModelsView {
    pub error: Option<Option<Seq<char>>>,
    pub data: Option<Seq<Option<Seq<char>>>>,
}

/// The characters of a string, where there is one.
pub open spec fn words(string: Option<String>) -> Option<Seq<char>> {
    match string {
        Some(s) => Some(s@),
        None => None,
    }
}

impl View for ModelsReply {
    type V = ModelsView;

    open spec fn view(&self) -> ModelsView {
        ModelsView {
            error: match self.error {
                Some(message) => Some(words(message)),
                None => None,
            },
            data: match self.data {
                Some(ids) => Some(ids@.map_values(|id: Option<String>| words(id))),
                None => None,
            },
        }
    }
}

/// The string that `json` has for `key`.
pub open spec fn text_at(json: Json, key: Seq<char>) -> Option<Seq<char>> {
    match json.member(key) {
        Some(inner) => inner.text(),
        None => None,
    }
}

/// What an answer says: the message of its member `error`, whatever that is, and the `id` of
/// each element of its member `data`, if that is an array.
pub open spec fn models_view(json: Json) -> ModelsView {
    ModelsView {
        error: match json.member("error"@) {
            Some(error) => Some(text_at(error, "message"@)),
            None => None,
        },
        data: match data_items(json) {
            Some(items) => Some(items.map_values(|item: Json| text_at(item, "id"@))),
            None => None,
        },
    }
}

/// The elements of the member `data`, if that is an array.
pub open spec fn data_items(json: Json) -> Option<Seq<Json>> {
    match json.member("data"@) {
        Some(data) => data.elements(),
        None => None,
    }
}

fn owned(chars: Option<&str>) -> (string: Option<String>)
    ensures
        words(string) == match chars {
            Some(s) => Some(s@),
            None => None,
        },
{
    match chars {
        Some(s) => Some(s.to_owned()),
        None => None,
    }
}

fn read_ids(items: &Vec<Value>) -> (ids: Vec<Option<String>>)
    ensures
        ids@.map_values(|id: Option<String>| words(id)) == items@.map_values(
            |item: Value| json_of(item),
        ).map_values(|item: Json| text_at(item, "id"@)),
{
    let mut ids: Vec<Option<String>> = Vec::new();
    let mut i: usize = 0;
    while i < items.len()
        invariant
            i <= items.len(),
            ids.len() == i,
            forall|k: int|
                0 <= k < i ==> words(#[trigger] ids@[k]) == text_at(json_of(items@[k]), "id"@),
        decreases items.len() - i,
    {
        ids.push(owned(text_member(&items[i], "id")));
        i += 1;
    }
    assert(ids@.map_values(|id: Option<String>| words(id)) =~= items@.map_values(
        |item: Value| json_of(item),
    ).map_values(|item: Json| text_at(item, "id"@)));
    ids
}

/// Reads a provider's answer.
pub fn read_models(json: &Value) -> (reply: ModelsReply)
    ensures
        reply@ == models_view(json_of(*json)),
{
    let error = match member(json, "error") {
        Some(error) => Some(owned(text_member(error, "message"))),
        None => None,
    };
    let data = match member(json, "data") {
        Some(data) => match data.as_array() {
            Some(items) => Some(read_ids(items)),
            None => None,
        },
        None => None,
    };
    ModelsReply { error, data }
}

/// The names among `ids`, in order.
pub open spec fn named(ids: Seq<Option<Seq<char>>>) -> Seq<Seq<char>>
    decreases ids.len(),
{
    if ids.len() == 0 {
        seq![]
    } else {
        match ids.last() {
            Some(id) => named(ids.drop_last()).push(id),
            None => named(ids.drop_last()),
        }
    }
}

/// `models` is what the answer `reply` comes to: an error that it names is an authentication
/// error, one without a list is a failed request, and any other lists its names in order.
pub open spec fn lists(reply: ModelsView, models: Result<Vec<String>, ProviderError>) -> bool {
    match reply.error {
        Some(message) => models is Err && models->Err_0@ == ErrorView::Authentication(
            match message {
                Some(chars) => chars,
                None => "unknown error"@,
            },
        ),
        None => match reply.data {
            None => models is Err && models->Err_0@ == ErrorView::RequestFailed(
                "Missing 'data' array in models response"@,
            ),
            Some(ids) => {
                &&& models is Ok
                &&& sorted_by(texts(models->Ok_0@), text_order())
                &&& texts(models->Ok_0@).to_multiset() == named(ids).to_multiset()
            },
        },
    }
}

fn names(ids: Vec<Option<String>>) -> (found: Vec<String>)
    ensures
        texts(found@) == named(ids@.map_values(|id: Option<String>| words(id))),
{
    let ghost all = ids@.map_values(|id: Option<String>| words(id));
    let mut found: Vec<String> = Vec::new();
    let mut i: usize = 0;
    assert(texts(found@) =~= named(all.take(0)));
    while i < ids.len()
        invariant
            i <= ids.len(),
            all == ids@.map_values(|id: Option<String>| words(id)),
            texts(found@) == named(all.take(i as int)),
        decreases ids.len() - i,
    {
        assert(all.take(i + 1).drop_last() =~= all.take(i as int));
        assert(all.take(i + 1).last() == words(ids@[i as int]));
        match &ids[i] {
            Some(id) => {
                let ghost before = found@;
                found.push(id.clone());
                assert(texts(found@) =~= texts(before).push(id@));
            },
            None => {},
        }
        i += 1;
    }
    assert(all.take(ids.len() as int) =~= all);
    found
}

/// The models that the answer `reply` lists.
pub fn list_models(reply: ModelsReply) -> (models: Result<Vec<String>, ProviderError>)
    ensures
        lists(reply@, models),
{
    match reply.error {
        Some(Some(message)) => Err(ProviderError::Authentication(message)),
        Some(None) => Err(ProviderError::Authentication("unknown error".to_owned())),
        None => match reply.data {
            None => Err(
                ProviderError::RequestFailed("Missing 'data' array in models response".to_owned()),
            ),
            Some(ids) => {
                let mut models: Vec<String> = names(ids);
                sort_texts(&mut models);
                Ok(models)
            },
        },
    }
}

/// What came of asking a provider for its models.
pub enum ModelsFetch<'a, E> {
    /// The question did not get through.
    Unreachable(String),
    /// The response was not one of success.
    Refused(E),
    /// The response holds this.
    Answered(&'a Value),
}

/// The path that a provider's models are found at.
pub fn models_path() -> (path: &'static str)
    ensures
        path@ == "models"@,
{
    "models"
}

impl<A> OpenAiCompatibleProvider<A> {
    /// The models that the provider says it has, in order.
    pub fn fetch_supported_models<E>(&self, fetched: ModelsFetch<'_, E>) -> (models: Result<
        Vec<String>,
        Failure<E>,
    >)
        ensures
            match fetched {
                ModelsFetch::Unreachable(why) => models is Err && models->Err_0@
                    == FailureView::<E>::Made(ErrorView::RequestFailed(why@)),
                ModelsFetch::Refused(error) => models == Err::<Vec<String>, Failure<E>>(
                    Failure::Passed(error),
                ),
                ModelsFetch::Answered(json) => match models {
                    Ok(found) => lists(models_view(json_of(*json)), Ok(found)),
                    Err(Failure::Made(error)) => lists(models_view(json_of(*json)), Err(error)),
                    Err(Failure::Passed(_)) => false,
                },
            },
    {
        match fetched {
            ModelsFetch::Unreachable(why) => Err(Failure::Made(ProviderError::RequestFailed(why))),
            ModelsFetch::Refused(error) => Err(Failure::Passed(error)),
            ModelsFetch::Answered(json) => match list_models(read_models(json)) {
                Ok(found) => Ok(found),
                Err(error) => Err(Failure::Made(error)),
            },
        }
    }
}

/// `models` with its strings as characters.
pub open spec fn listed(models: Result<Vec<String>, ProviderError>) -> Result<
    Seq<Seq<char>>,
    ErrorView,
> {
    match models {
        Ok(found) => Ok(texts(found@)),
        Err(error) => Err(error@),
    }
}

/// An answer comes to one list, and two answers that name the same models, each as often, come
/// to the same.
pub proof fn same_names_are_listed_alike(
    a: ModelsView,
    b: ModelsView,
    from_a: Result<Vec<String>, ProviderError>,
    from_b: Result<Vec<String>, ProviderError>,
)
    requires
        lists(a, from_a),
        lists(b, from_b),
        a.error == b.error,
        a.data is Some <==> b.data is Some,
        a.data is Some ==> named(a.data->0).to_multiset() == named(b.data->0).to_multiset(),
    ensures
        listed(from_a) == listed(from_b),
{
    if a.error is None && a.data is Some {
        sorted_texts_are_unique(texts(from_a->Ok_0@), texts(from_b->Ok_0@));
    }
}

/// A name is among the names of `ids` as often as it is in `ids`.
pub proof fn lemma_named_count(ids: Seq<Option<Seq<char>>>, id: Seq<char>)
    ensures
        named(ids).to_multiset().count(id) == ids.to_multiset().count(Some(id)),
    decreases ids.len(),
{
    broadcast use vstd::multiset::group_multiset_axioms;
    broadcast use vstd::seq_lib::group_to_multiset_ensures;

    if ids.len() > 0 {
        let before = ids.drop_last();
        lemma_named_count(before, id);
        assert(ids =~= before.push(ids.last()));
    }
}

/// What is done to each element of permuted sequences leaves them permuted.
proof fn lemma_map_permuted<A, B>(a: Seq<A>, b: Seq<A>, f: spec_fn(A) -> B)
    requires
        a.to_multiset() == b.to_multiset(),
    ensures
        a.map_values(f).to_multiset() == b.map_values(f).to_multiset(),
    decreases a.len(),
{
    broadcast use vstd::multiset::group_multiset_axioms;
    broadcast use vstd::seq_lib::group_to_multiset_ensures;

    assert(a.len() == a.to_multiset().len());
    assert(b.len() == b.to_multiset().len());
    if a.len() == 0 {
        assert(a.map_values(f) =~= b.map_values(f));
    } else {
        let before = a.drop_last();
        let last = a.last();
        assert(a =~= before.push(last));
        assert(b.to_multiset().count(last) > 0);
        let i = choose|i: int| 0 <= i < b.len() && b[i] == last;
        let others = b.remove(i);
        assert(others.to_multiset() =~= before.to_multiset());
        lemma_map_permuted(before, others, f);
        assert(a.map_values(f) =~= before.map_values(f).push(f(last)));
        assert(b.map_values(f).remove(i) =~= others.map_values(f));
        assert(b.map_values(f)[i] == f(last));
        assert(b.map_values(f).to_multiset() =~= others.map_values(f).to_multiset().insert(
            f(last),
        ));
    }
}

/// The order in which an answer lists its models does not matter: answers that agree on their
/// error and have the same elements in `data`, in whatever order, come to the same list.
pub proof fn order_of_the_answer_does_not_matter(
    a: Json,
    b: Json,
    from_a: Result<Vec<String>, ProviderError>,
    from_b: Result<Vec<String>, ProviderError>,
)
    requires
        lists(models_view(a), from_a),
        lists(models_view(b), from_b),
        a.member("error"@) == b.member("error"@),
        data_items(a) is Some <==> data_items(b) is Some,
        data_items(a) is Some ==> data_items(a)->0.to_multiset()
            == data_items(b)->0.to_multiset(),
    ensures
        listed(from_a) == listed(from_b),
{
    if data_items(a) is Some {
        let id_of = |item: Json| text_at(item, "id"@);
        lemma_map_permuted(data_items(a)->0, data_items(b)->0, id_of);
        let ids_a = models_view(a).data->0;
        let ids_b = models_view(b).data->0;
        assert(ids_a == data_items(a)->0.map_values(id_of));
        assert(ids_b == data_items(b)->0.map_values(id_of));
        assert(named(ids_a).to_multiset() =~= named(ids_b).to_multiset()) by {
            assert forall|id: Seq<char>|
                named(ids_a).to_multiset().count(id) == named(ids_b).to_multiset().count(id) by {
                lemma_named_count(ids_a, id);
                lemma_named_count(ids_b, id);
            }
        }
    }
    same_names_are_listed_alike(models_view(a), models_view(b), from_a, from_b);
}

proof fn lemma_named_contains(ids: Seq<Option<Seq<char>>>, id: Seq<char>)
    ensures
        named(ids).contains(id) <==> ids.contains(Some(id)),
    decreases ids.len(),
{
    if ids.len() > 0 {
        let before = ids.drop_last();
        lemma_named_contains(before, id);
        assert(ids =~= before.push(ids.last()));
        if ids.contains(Some(id)) {
            let i = choose|i: int| 0 <= i < ids.len() && ids[i] == Some(id);
            if i < before.len() {
                assert(before[i] == Some(id));
                assert(named(before).contains(id));
                let k = choose|k: int| 0 <= k < named(before).len() && named(before)[k] == id;
                assert(named(ids)[k] == id);
            } else {
                assert(named(ids).last() == id);
                assert(named(ids)[named(ids).len() - 1] == id);
            }
        }
        if named(ids).contains(id) {
            let k = choose|k: int| 0 <= k < named(ids).len() && named(ids)[k] == id;
            if k < named(before).len() {
                assert(named(before)[k] == id);
                let i = choose|i: int| 0 <= i < before.len() && before[i] == Some(id);
                assert(ids[i] == Some(id));
            } else {
                assert(ids[ids.len() - 1] == Some(id));
            }
        }
    }
}

/// Every name that an answer gives is listed, and nothing else is.
pub proof fn listed_models_are_the_named_ones(
    reply: ModelsView,
    models: Result<Vec<String>, ProviderError>,
    id: Seq<char>,
)
    requires
        lists(reply, models),
        models is Ok,
    ensures
        texts(models->Ok_0@).contains(id) <==> reply.data->0.contains(Some(id)),
{
    let found = texts(models->Ok_0@);
    let ids = reply.data->0;
    lemma_named_contains(ids, id);
    found.to_multiset_ensures();
    named(ids).to_multiset_ensures();
    assert(found.contains(id) <==> found.to_multiset().count(id) > 0);
    assert(named(ids).contains(id) <==> named(ids).to_multiset().count(id) > 0);
}

/// An error in the answer is reported, even where the answer lists models too.
pub proof fn named_error_hides_the_list(
    reply: ModelsView,
    models: Result<Vec<String>, ProviderError>,
)
    requires
        lists(reply, models),
    ensures
        reply.error is Some ==> models is Err && models->Err_0@ is Authentication,
        models is Ok ==> reply.error is None,
{
}

} // verus!
