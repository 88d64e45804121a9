use llm_query::error::{ErrorKind, LlmError, RequiredField};
use llm_query::provider::Provider;

#[test]
fn kinds() {
    let p = Provider::LocalGenerate;
    let d = String::new();
    assert_eq!(LlmError::UnsupportedProvider.kind(), ErrorKind::Configuration);
    assert_eq!(
        LlmError::MissingField { provider: p, field: RequiredField::ApiKey }.kind(),
        ErrorKind::Configuration
    );
    assert_eq!(LlmError::SendFailed { provider: p, detail: d.clone() }.kind(), ErrorKind::Network);
    assert_eq!(
        LlmError::UnreadableBody { provider: p, detail: d.clone() }.kind(),
        ErrorKind::Network
    );
    assert_eq!(
        LlmError::Upstream { provider: p, status: 500, body: d.clone() }.kind(),
        ErrorKind::Upstream
    );
    assert_eq!(
        LlmError::MalformedResponse { provider: p, detail: d.clone() }.kind(),
        ErrorKind::Parse
    );
    assert_eq!(LlmError::MissingText { provider: p }.kind(), ErrorKind::Parse);
    assert_eq!(LlmError::MalformedEvaluation { detail: d }.kind(), ErrorKind::Parse);
    assert_eq!(LlmError::InvalidScore.kind(), ErrorKind::Validation);
    assert_eq!(LlmError::InvalidIssues.kind(), ErrorKind::Validation);
}

#[test]
fn missing_field_messages() {
    assert_eq!(
        LlmError::MissingField { provider: Provider::OpenAiChat, field: RequiredField::ApiKey }
            .message(),
        "API key is required for OpenAI"
    );
    assert_eq!(
        LlmError::MissingField { provider: Provider::OpenAiChat, field: RequiredField::Model }
            .message(),
        "Model is required for OpenAI"
    );
    assert_eq!(
        LlmError::MissingField {
            provider: Provider::LocalCompletions,
            field: RequiredField::Model
        }
        .message(),
        "Model is required for LM Studio"
    );
}

#[test]
fn field_names() {
    assert_eq!(RequiredField::ApiKey.name(), "api_key");
    assert_eq!(RequiredField::Model.name(), "model");
    assert_eq!(RequiredField::ApiKey.label(), "API key");
    assert_eq!(RequiredField::Model.label(), "Model");
}

#[test]
fn transport_messages() {
    for (provider, label) in [
        (Provider::OpenAiChat, "OpenAI"),
        (Provider::LocalGenerate, "Local AI"),
        (Provider::LocalCompletions, "LM Studio"),
    ] {
        assert_eq!(
            LlmError::SendFailed { provider, detail: "dns".to_string() }.message(),
            format!("Failed to send request to {}: dns", label)
        );
        assert_eq!(
            LlmError::Upstream { provider, status: 500, body: "boom".to_string() }.message(),
            format!("{} API error: boom", label)
        );
        assert_eq!(
            LlmError::Upstream { provider, status: 299, body: "boom".to_string() }.message(),
            "AI Server Error: boom"
        );
        assert_eq!(
            LlmError::MalformedResponse { provider, detail: "eof".to_string() }.message(),
            format!("Failed to parse {} response: eof", label)
        );
    }
}
