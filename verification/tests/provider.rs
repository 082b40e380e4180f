use openai_compat::error::ProviderError;
use openai_compat::provider::OpenAiCompatibleProvider;
use openai_compat::request::{
    written_request, ImageFormat, ModelConfig, ModelOverride, OpenAiFormatOptions, RequestPlan,
};
use serde_json::Value;

fn provider() -> OpenAiCompatibleProvider<&'static str> {
    OpenAiCompatibleProvider::new("test".to_string(), "http://localhost", String::new())
}

fn model(supports_vision: Option<bool>) -> ModelConfig<()> {
    ModelConfig { model_name: "test-model".to_string(), supports_vision, rest: () }
}

#[test]
fn a_new_provider_streams() {
    let provider = provider();
    assert_eq!(provider.get_name(), "test");
    assert_eq!(*provider.api_client(), "http://localhost");
    assert!(provider.supports_streaming());
}

#[test]
fn streaming_can_be_switched_off_and_on() {
    let provider = provider().with_supports_streaming(false);
    assert!(!provider.supports_streaming());
    assert_eq!(provider.get_name(), "test");
    assert!(provider.with_supports_streaming(true).supports_streaming());
}

#[test]
fn build_request_respects_non_streaming_mode() {
    let provider = OpenAiCompatibleProvider::new(
        "test".to_string(),
        "http://localhost".to_string(),
        String::new(),
    )
    .with_supports_streaming(false);

    let model = model(None);
    let plan = provider.build_request::<_, u8, u8>(
        &model,
        "",
        &[],
        &[],
        provider.supports_streaming(),
    );

    assert!(!plan.for_streaming);
    assert_eq!(
        plan,
        RequestPlan {
            model_config: &model,
            model_override: None,
            system: "",
            messages: &[],
            tools: &[],
            image_format: ImageFormat::OpenAi,
            for_streaming: false,
        }
    );
}

#[test]
fn a_provider_that_does_not_stream_plans_no_stream() {
    let provider = provider().with_supports_streaming(false);
    let model = model(None);
    let plan = provider.build_request::<_, u8, u8>(&model, "", &[], &[], provider.supports_streaming());
    assert!(!plan.for_streaming);
    assert_eq!(plan, provider.stream(&model, "", &[], &[]));
    assert!(!provider.stream_for_model::<_, u8, u8>(&model, "w", "c", "", &[], &[]).for_streaming);
}

#[test]
fn a_provider_that_streams_plans_a_stream() {
    let provider = provider();
    let model = model(None);
    assert!(provider.stream::<_, u8, u8>(&model, "", &[], &[]).for_streaming);
    assert!(provider.stream_for_model::<_, u8, u8>(&model, "w", "c", "", &[], &[]).for_streaming);
}

#[test]
fn a_plan_for_the_configured_model_overrides_nothing() {
    let model = model(Some(true));
    assert_eq!(
        provider().stream(&model, "be brief", &["hi"], &[1, 2]),
        RequestPlan {
            model_config: &model,
            model_override: None,
            system: "be brief",
            messages: &["hi"],
            tools: &[1, 2],
            image_format: ImageFormat::OpenAi,
            for_streaming: true,
        }
    );
}

#[test]
fn the_whole_configuration_goes_into_a_plan() {
    let model = ModelConfig {
        model_name: "test-model".to_string(),
        supports_vision: None,
        rest: vec![("temperature", 7)],
    };
    let plan = provider().stream::<_, u8, u8>(&model, "", &[], &[]);
    assert_eq!(plan.model_config.rest, [("temperature", 7)]);
}

#[test]
fn a_plan_for_another_model_names_it() {
    for (supports_vision, expected) in [(None, false), (Some(false), false), (Some(true), true)] {
        let model = model(supports_vision);
        assert_eq!(
            provider().stream_for_model(&model, "wire", "capability", "s", &["hi"], &[1]),
            RequestPlan {
                model_config: &model,
                model_override: Some(ModelOverride {
                    wire_model: "wire",
                    capability_model: "capability",
                    options: OpenAiFormatOptions {
                        preserve_thinking_context: true,
                        supports_vision: expected,
                    },
                }),
                system: "s",
                messages: &["hi"],
                tools: &[1],
                image_format: ImageFormat::OpenAi,
                for_streaming: true,
            }
        );
    }
}

#[test]
fn a_request_that_cannot_be_written_is_a_failed_request() {
    assert_eq!(
        written_request(Err("no messages".to_string())),
        Err(ProviderError::RequestFailed("Failed to create request: no messages".to_string()))
    );
    assert_eq!(written_request(Ok(Value::Bool(true))), Ok(Value::Bool(true)));
}

#[test]
fn a_written_request_opens_the_exchange_for_its_model() {
    let model = model(None);
    let provider = provider().with_supports_streaming(false);
    let plan = provider.stream_for_model::<_, u8, u8>(&model, "w", "c", "", &[], &[]);
    match provider.on_written(&plan, Ok(Value::Bool(true))) {
        Ok(pending) => {
            assert_eq!(pending.post.payload, Value::Bool(true));
            assert_eq!(pending.post.path, "chat/completions");
            assert_eq!(*pending.post.model_config, model);
            assert!(!pending.post.streaming);
        }
        Err(error) => panic!("{error:?}"),
    }
}

#[test]
fn nothing_is_opened_for_a_request_that_cannot_be_written() {
    let model = model(None);
    let provider = provider();
    let plan = provider.stream::<_, u8, u8>(&model, "", &[], &[]);
    match provider.on_written(&plan, Err("no messages".to_string())) {
        Err(error) => assert_eq!(
            error,
            ProviderError::RequestFailed("Failed to create request: no messages".to_string())
        ),
        Ok(_) => panic!("no exchange should have been opened"),
    }
}

#[test]
fn credentials_that_cannot_be_renewed_are_an_authentication_error() {
    assert_eq!(provider().refresh_credentials(Ok(())), Ok(()));
    assert_eq!(
        provider().refresh_credentials(Err("expired".to_string())),
        Err(ProviderError::Authentication("expired".to_string()))
    );
}
