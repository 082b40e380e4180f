use openai_compat::error::{Failure, ProviderError};
use openai_compat::models::{list_models, models_path, read_models, ModelsFetch, ModelsReply};
use openai_compat::provider::OpenAiCompatibleProvider;
use serde_json::Value;

fn json(text: &str) -> Value {
    serde_json::from_str(text).unwrap()
}

type Models = Result<Vec<String>, Failure<&'static str>>;

fn fetch(fetched: ModelsFetch<'_, &'static str>) -> Models {
    let provider = OpenAiCompatibleProvider::new("test".to_string(), (), String::new());
    provider.fetch_supported_models(fetched)
}

fn answered(text: &str) -> Models {
    fetch(ModelsFetch::Answered(&json(text)))
}

fn missing_data() -> Models {
    Err(Failure::Made(ProviderError::RequestFailed(
        "Missing 'data' array in models response".to_string(),
    )))
}

fn authentication(words: &str) -> Models {
    Err(Failure::Made(ProviderError::Authentication(words.to_string())))
}

#[test]
fn models_are_found_below_the_base_url() {
    assert_eq!(models_path(), "models");
}

#[test]
fn models_are_listed_in_order() {
    let models = answered(r#"{"data": [{"id": "b"}, {"id": "a"}, {"id": "B"}, {"id": "ab"}]}"#);
    assert_eq!(models.unwrap(), ["B", "a", "ab", "b"]);
}

#[test]
fn models_are_ordered_by_code_point() {
    let models =
        answered("{\"data\": [{\"id\": \"\u{1f600}\"}, {\"id\": \"\u{ff5e}\"}, {\"id\": \"z\"}, {\"id\": \"\u{e9}\"}]}");
    assert_eq!(models.unwrap(), ["z", "\u{e9}", "\u{ff5e}", "\u{1f600}"]);
}

#[test]
fn the_order_of_the_answer_is_forgotten() {
    assert_eq!(
        answered(r#"{"data": [{"id": "x"}, {"id": "y"}, {"id": "x"}]}"#),
        answered(r#"{"data": [{"id": "y"}, {"id": "x"}, {"id": "x"}]}"#)
    );
    assert_eq!(
        answered(r#"{"data": [{"id": "y"}, {"id": "x"}, {"id": "x"}]}"#).unwrap(),
        ["x", "x", "y"]
    );
    assert_eq!(
        answered(r#"{"data": [null, {"id": "x"}, {"id": 3}, {"id": "y"}]}"#),
        answered(r#"{"data": [{"id": "y"}, {"id": 3}, {"id": "x"}, null]}"#)
    );
}

#[test]
fn elements_without_a_name_are_left_out() {
    let models = answered(r#"{"data": [{"id": 3}, {"name": "n"}, "s", null, {"id": "m"}, []]}"#);
    assert_eq!(models.unwrap(), ["m"]);
}

#[test]
fn an_empty_list_is_a_list() {
    assert_eq!(answered(r#"{"data": []}"#).unwrap(), Vec::<String>::new());
}

#[test]
fn an_answer_without_a_list_is_a_failed_request() {
    assert_eq!(answered("{}"), missing_data());
    assert_eq!(answered(r#"{"data": {"id": "m"}}"#), missing_data());
    assert_eq!(answered(r#"{"data": null}"#), missing_data());
    assert_eq!(answered(r#"[{"id": "m"}]"#), missing_data());
    assert_eq!(answered("null"), missing_data());
    assert_eq!(answered("\"data\""), missing_data());
}

#[test]
fn an_error_in_the_answer_is_an_authentication_error() {
    assert_eq!(
        answered(r#"{"error": {"message": "bad key"}, "data": [{"id": "m"}]}"#),
        authentication("bad key")
    );
    assert_eq!(answered(r#"{"error": {"message": 7}}"#), authentication("unknown error"));
    assert_eq!(answered(r#"{"error": {}}"#), authentication("unknown error"));
    assert_eq!(answered(r#"{"error": "bad key"}"#), authentication("unknown error"));
    assert_eq!(answered(r#"{"error": null, "data": []}"#), authentication("unknown error"));
}

#[test]
fn a_question_that_did_not_get_through_is_a_failed_request() {
    assert_eq!(
        fetch(ModelsFetch::Unreachable("connection refused".to_string())),
        Err(Failure::Made(ProviderError::RequestFailed("connection refused".to_string())))
    );
}

#[test]
fn a_refusal_is_passed_on() {
    assert_eq!(
        fetch(ModelsFetch::Refused("rate limit, retry in 3 s")),
        Err(Failure::Passed("rate limit, retry in 3 s"))
    );
}

#[test]
fn an_answer_is_read_as_it_stands() {
    assert_eq!(
        read_models(&json(r#"{"error": {"message": "m"}, "data": [{"id": "b"}, 1, {"id": "a"}]}"#)),
        ModelsReply {
            error: Some(Some("m".to_string())),
            data: Some(vec![Some("b".to_string()), None, Some("a".to_string())]),
        }
    );
    assert_eq!(read_models(&json("[]")), ModelsReply { error: None, data: None });
}

#[test]
fn what_was_read_is_listed() {
    assert_eq!(
        list_models(ModelsReply {
            error: None,
            data: Some(vec![Some("b".to_string()), None, Some("a".to_string())]),
        })
        .unwrap(),
        ["a", "b"]
    );
    assert_eq!(
        list_models(ModelsReply { error: Some(None), data: None }),
        Err(ProviderError::Authentication("unknown error".to_string()))
    );
    assert_eq!(
        list_models(ModelsReply { error: None, data: None }),
        Err(ProviderError::RequestFailed(
            "Missing 'data' array in models response".to_string()
        ))
    );
}
