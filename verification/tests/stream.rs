use openai_compat::error::ProviderError;
use openai_compat::idle::stall_error;
use openai_compat::stream::{
    on_message_event, stream_openai_compat, stream_openai_compat_with_idle_timeout,
    stream_responses_compat, Fault, LogEntry, MessageEvent, MessageStep, StreamFormat,
};
use openai_compat::usage::ProviderUsage;

type Event = MessageEvent<&'static str, u32, (), (), &'static str, ProviderError>;

fn usage(tokens: u32) -> ProviderUsage<u32, (), ()> {
    ProviderUsage::new("m".to_string(), tokens)
}

fn entry(event: Event) -> LogEntry<&'static str, u32, (), ()> {
    match on_message_event(event) {
        MessageStep::Log(entry) => entry,
        _ => panic!("the message should be logged"),
    }
}

#[test]
fn chat_completions_are_guarded_for_two_minutes() {
    match stream_openai_compat("response", "log") {
        Ok(stream) => {
            assert_eq!(stream.response, "response");
            assert_eq!(stream.log, "log");
            assert_eq!(stream.format, StreamFormat::ChatCompletions);
            assert_eq!(stream.idle_timeout_secs, Some(120));
        }
        Err(error) => panic!("{error:?}"),
    }
}

#[test]
fn the_idle_timeout_can_be_chosen() {
    match stream_openai_compat_with_idle_timeout((), (), 1) {
        Ok(stream) => {
            assert_eq!(stream.format, StreamFormat::ChatCompletions);
            assert_eq!(stream.idle_timeout_secs, Some(1));
        }
        Err(error) => panic!("{error:?}"),
    }
}

#[test]
fn responses_are_not_guarded() {
    match stream_responses_compat("response", "log") {
        Ok(stream) => {
            assert_eq!(stream.response, "response");
            assert_eq!(stream.log, "log");
            assert_eq!(stream.format, StreamFormat::Responses);
            assert_eq!(stream.idle_timeout_secs, None);
        }
        Err(error) => panic!("{error:?}"),
    }
}

#[test]
fn a_message_is_logged_with_its_token_counts_and_then_handed_out() {
    let counted = entry(Event::Message("hi", Some(usage(3))));
    assert_eq!(counted.logged_usage(), Some(&3));
    assert_eq!(counted.on_logged::<ProviderError>(Ok(())), Ok(("hi", Some(usage(3)))));

    let uncounted = entry(Event::Message("hi", None));
    assert_eq!(uncounted.logged_usage(), None);
    assert_eq!(uncounted.on_logged::<ProviderError>(Ok(())), Ok(("hi", None)));
}

#[test]
fn a_message_that_cannot_be_logged_is_not_handed_out() {
    let error = ProviderError::RequestFailed("disk full".to_string());
    assert_eq!(entry(Event::Message("hi", None)).on_logged(Err(error.clone())), Err(error));
}

#[test]
fn a_stall_goes_through_the_parser_unchanged() {
    match on_message_event(Event::Failed(Fault::Provider(stall_error(1)))) {
        MessageStep::Fail(error) => assert_eq!(error, stall_error(1)),
        _ => panic!("the stall should end the stream"),
    }
}

#[test]
fn other_errors_are_told_as_undecodable() {
    match on_message_event(Event::Failed(Fault::Foreign("not JSON"))) {
        MessageStep::Undecodable(cause) => assert_eq!(cause, "not JSON"),
        _ => panic!("the stream should end"),
    }
}

#[test]
fn the_end_ends_the_stream() {
    assert!(matches!(on_message_event(Event::End), MessageStep::Finish));
}
