use openai_compat::error::ProviderError;
use openai_compat::exchange::{
    loggable, usage_section, Answer, LogPending, ParsedReply, Posting,
};
use openai_compat::provider::OpenAiCompatibleProvider;
use openai_compat::request::ModelConfig;
use openai_compat::usage::{CostSource, ProviderUsage};
use serde_json::Value;

fn json(text: &str) -> Value {
    serde_json::from_str(text).unwrap()
}

type Config = ModelConfig<&'static str>;

fn model() -> Config {
    ModelConfig {
        model_name: "test-model".to_string(),
        supports_vision: None,
        rest: "x-session: 7",
    }
}

fn pending<'a>(model: &'a Config, prefix: &str, streaming: bool) -> LogPending<'a, &'static str> {
    let provider = OpenAiCompatibleProvider::new("test".to_string(), (), prefix.to_string())
        .with_supports_streaming(streaming);
    provider.stream_payload(model, json(r#"{"model": "m"}"#))
}

fn posting(model: &Config, streaming: bool) -> Posting<'_, &'static str> {
    match pending(model, "", streaming).on_log::<ServerError>(Ok(())) {
        Ok(posting) => posting,
        Err(error) => panic!("{error:?}"),
    }
}

/// An error that the library knows nothing of.
#[derive(Clone, Debug, PartialEq, Eq)]
struct ServerError {
    retry_after_secs: Option<u64>,
}

fn server_error() -> ServerError {
    ServerError { retry_after_secs: Some(3) }
}

fn parsed(reply: &str) -> ParsedReply<&'static str> {
    let model = model();
    let reading = match posting(&model, false).on_answer::<_, ServerError>(Ok("response")) {
        Answer::Single("response", reading) => reading,
        _ => panic!("the response should be read as one value"),
    };
    let read = match reading.on_json::<ServerError>(Ok(json(reply))) {
        Ok(read) => read,
        Err(error) => panic!("{error:?}"),
    };
    match read.on_message(Ok("hello")) {
        Ok(parsed) => parsed,
        Err(error) => panic!("{error:?}"),
    }
}

#[test]
fn the_path_begins_with_the_prefix() {
    let model = model();
    assert_eq!(pending(&model, "", true).post.path, "chat/completions");
    assert_eq!(
        pending(&model, "deployments/gpt/", true).post.path,
        "deployments/gpt/chat/completions"
    );
}

#[test]
fn the_post_carries_the_payload_and_the_configuration() {
    let model = model();
    let post = pending(&model, "", true).post;
    assert_eq!(post.payload, json(r#"{"model": "m"}"#));
    assert_eq!(*post.model_config, model);
    assert_eq!(post.model_config.rest, "x-session: 7");
    assert!(post.streaming);
    assert!(!pending(&model, "", false).post.streaming);
}

#[test]
fn an_opened_log_leaves_the_post_as_it_is() {
    let model = model();
    let post = posting(&model, true).post;
    assert_eq!(post.path, "chat/completions");
    assert_eq!(post.payload, json(r#"{"model": "m"}"#));
    assert_eq!(*post.model_config, model);
    assert!(post.streaming);
}

#[test]
fn nothing_is_posted_without_a_log() {
    match pending(&model(), "", true).on_log(Err(server_error())) {
        Err(error) => assert_eq!(error, server_error()),
        Ok(_) => panic!("the exchange should have failed"),
    }
}

#[test]
fn a_response_is_streamed_where_the_provider_streams() {
    let model = model();
    let answer = posting(&model, true).on_answer::<_, ServerError>(Ok(7));
    assert!(matches!(answer, Answer::Stream(7)));
}

#[test]
fn a_refusal_is_the_outcome_whether_or_not_it_was_logged() {
    for streaming in [false, true] {
        for logged in [Ok(()), Err("disk full")] {
            match posting(&model(), streaming).on_answer::<u8, _>(Err(server_error())) {
                Answer::Refused(refusal) => assert_eq!(refusal.on_logged(logged), server_error()),
                _ => panic!("the exchange should have been refused"),
            }
        }
    }
}

#[test]
fn a_response_that_cannot_be_read_fails_the_exchange() {
    match posting(&model(), false).on_answer::<_, ServerError>(Ok(7)) {
        Answer::Single(7, reading) => match reading.on_json(Err("response body exceeds")) {
            Err(error) => assert_eq!(error, "response body exceeds"),
            Ok(_) => panic!("the exchange should have failed"),
        },
        _ => panic!("the response should be read as one value"),
    }
}

#[test]
fn a_message_that_cannot_be_parsed_is_a_failed_request() {
    let read = match posting(&model(), false).on_answer::<_, ServerError>(Ok(7)) {
        Answer::Single(_, reading) => match reading.on_json::<ServerError>(Ok(json("{}"))) {
            Ok(read) => read,
            Err(error) => panic!("{error:?}"),
        },
        _ => panic!("the response should be read as one value"),
    };
    match read.on_message::<u8>(Err("no choices".to_string())) {
        Err(error) => assert_eq!(
            error,
            ProviderError::RequestFailed("Failed to parse message: no choices".to_string())
        ),
        Ok(_) => panic!("the exchange should have failed"),
    }
}

#[test]
fn a_reply_is_delivered_with_its_usage() {
    let reply = parsed(r#"{"choices": [], "usage": {"total_tokens": 5}}"#);
    assert_eq!(usage_section(&reply.json), &json(r#"{"total_tokens": 5}"#));
    let mut counted = reply.on_counts(5u32);
    assert_eq!(counted.usage.model, "test-model");
    assert_eq!(counted.json, json(r#"{"choices": [], "usage": {"total_tokens": 5}}"#));
    counted.usage.metadata = Some("stop");
    let pending = counted.on_cost(Some(0.25f64));
    assert_eq!(pending.logged_usage(), Some(&5));
    assert_eq!(
        pending.on_logged::<ServerError>(Ok(())),
        Ok((
            "hello",
            ProviderUsage {
                model: "test-model".to_string(),
                usage: 5,
                metadata: Some("stop"),
                cost: Some((0.25, CostSource::ProviderReported)),
            }
        ))
    );
}

#[test]
fn a_reply_without_a_cost_keeps_its_usage_as_recorded() {
    let mut counted = parsed("{}").on_counts::<_, (), _>(5u32);
    counted.usage.cost = Some((7, CostSource::ProviderReported));
    assert_eq!(
        counted.on_cost(None).on_logged::<ServerError>(Ok(())).map(|(_, usage)| usage.cost),
        Ok(Some((7, CostSource::ProviderReported)))
    );
    assert_eq!(
        parsed("{}")
            .on_counts::<_, (), f64>(5u32)
            .on_cost(None)
            .on_logged::<ServerError>(Ok(()))
            .map(|(_, usage)| usage.cost),
        Ok(None)
    );
}

#[test]
fn what_recording_makes_of_the_counts_is_logged() {
    let mut counted = parsed("{}").on_counts::<_, (), f64>(5u32);
    counted.usage.usage = 6;
    assert_eq!(counted.on_cost(None).logged_usage(), Some(&6));
}

#[test]
fn a_missing_usage_section_is_told_as_a_null_one() {
    assert_eq!(
        usage_section(&json(r#"{"choices": []}"#)),
        usage_section(&json(r#"{"choices": [], "usage": null}"#))
    );
}

#[test]
fn a_reply_that_cannot_be_logged_is_not_delivered() {
    let delivered = parsed("{}")
        .on_counts::<_, (), f64>(5u32)
        .on_cost(None)
        .on_logged(Err(server_error()));
    assert_eq!(delivered, Err(server_error()));
}

#[test]
fn the_usage_section_is_null_where_there_is_none() {
    assert_eq!(usage_section(&json("{}")), &Value::Null);
    assert_eq!(usage_section(&json("[1]")), &Value::Null);
    assert_eq!(usage_section(&json("\"usage\"")), &Value::Null);
    assert_eq!(usage_section(&json(r#"{"usage": 3, "other": 4}"#)), &json("3"));
}

#[test]
fn a_message_that_cannot_be_written_as_json_is_logged_as_null() {
    assert_eq!(loggable::<()>(Ok(json("[1]"))), json("[1]"));
    assert_eq!(loggable(Err("not a string key")), Value::Null);
}
