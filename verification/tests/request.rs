use llm_query::error::{ErrorKind, LlmError, RequiredField};
use llm_query::json::{Json, JsonNumber, Member};
use llm_query::provider::Provider;
use llm_query::request::{
    build_request, prepare_query, Header, HttpMethod, QueryLLMRequest, MAX_TOKENS,
    TEMPERATURE_BITS,
};

fn request(provider: &str) -> QueryLLMRequest {
    QueryLLMRequest {
        provider: provider.to_string(),
        api_key: Some("sk-test".to_string()),
        api_url: None,
        model: Some("m1".to_string()),
        prompt: "Say hi".to_string(),
    }
}

fn member(key: &str, value: Json) -> Member {
    Member { key: key.to_string(), value }
}

fn text(value: &str) -> Json {
    Json::String(value.to_string())
}

#[test]
fn chat_request_is_built() {
    let built = build_request(Provider::OpenAiChat, &request("openai")).unwrap();
    assert_eq!(built.method, HttpMethod::Post);
    assert_eq!(built.url, "https://api.openai.com/v1/chat/completions");
    assert_eq!(
        built.headers,
        vec![
            Header { name: "Authorization".to_string(), value: "Bearer sk-test".to_string() },
            Header { name: "Content-Type".to_string(), value: "application/json".to_string() },
        ]
    );
    assert_eq!(
        built.body,
        Json::Object(vec![
            member("model", text("m1")),
            member(
                "messages",
                Json::Array(vec![Json::Object(vec![
                    member("role", text("user")),
                    member("content", text("Say hi")),
                ])])
            ),
            member("stream", Json::Bool(false)),
        ])
    );
}

#[test]
fn chat_endpoint_is_not_overridable() {
    let mut query = request("openai");
    query.api_url = Some("http://elsewhere/".to_string());
    let built = build_request(Provider::OpenAiChat, &query).unwrap();
    assert_eq!(built.url, "https://api.openai.com/v1/chat/completions");
}

#[test]
fn chat_request_needs_credential_then_model() {
    let mut query = request("openai");
    query.api_key = None;
    query.model = None;
    assert_eq!(
        build_request(Provider::OpenAiChat, &query),
        Err(LlmError::MissingField {
            provider: Provider::OpenAiChat,
            field: RequiredField::ApiKey
        })
    );
    query.api_key = Some("k".to_string());
    assert_eq!(
        build_request(Provider::OpenAiChat, &query),
        Err(LlmError::MissingField { provider: Provider::OpenAiChat, field: RequiredField::Model })
    );
}

#[test]
fn missing_model_for_chat_query_is_configuration_error() {
    let mut query = request("openai");
    query.model = None;
    let error = prepare_query(&query).unwrap_err();
    assert_eq!(error.kind(), ErrorKind::Configuration);
    assert_eq!(
        error,
        LlmError::MissingField { provider: Provider::OpenAiChat, field: RequiredField::Model }
    );
    assert_eq!(RequiredField::Model.name(), "model");
    assert_eq!(error.message(), "Model is required for OpenAI");
}

#[test]
fn empty_model_counts_as_present() {
    let mut query = request("openai");
    query.model = Some(String::new());
    let built = build_request(Provider::OpenAiChat, &query).unwrap();
    assert_eq!(built.body.member("model"), Some(&text("")));
}

#[test]
fn generate_request_is_built() {
    let mut query = request("local-ai");
    query.api_key = None;
    let built = build_request(Provider::LocalGenerate, &query).unwrap();
    assert_eq!(built.method, HttpMethod::Post);
    assert_eq!(built.url, "http://localhost:11434/api/generate");
    assert_eq!(built.headers, Vec::<Header>::new());
    assert_eq!(
        built.body,
        Json::Object(vec![
            member("prompt", text("Say hi")),
            member("stream", Json::Bool(false)),
            member("model", text("m1")),
        ])
    );
}

#[test]
fn generate_request_leaves_out_absent_or_empty_model() {
    let bare = Json::Object(vec![
        member("prompt", text("Say hi")),
        member("stream", Json::Bool(false)),
    ]);
    let mut query = request("local-ai");
    query.model = None;
    assert_eq!(build_request(Provider::LocalGenerate, &query).unwrap().body, bare);
    query.model = Some(String::new());
    assert_eq!(build_request(Provider::LocalGenerate, &query).unwrap().body, bare);
}

#[test]
fn generate_request_needs_nothing_but_a_prompt() {
    let query = QueryLLMRequest {
        provider: "local-ai".to_string(),
        api_key: None,
        api_url: None,
        model: None,
        prompt: String::new(),
    };
    assert!(build_request(Provider::LocalGenerate, &query).is_ok());
}

#[test]
fn completions_request_is_built() {
    let mut query = request("lm-studio");
    query.api_key = None;
    let built = build_request(Provider::LocalCompletions, &query).unwrap();
    assert_eq!(built.method, HttpMethod::Post);
    assert_eq!(built.url, "http://localhost:1234/v1/completions");
    assert_eq!(built.headers, Vec::<Header>::new());
    assert_eq!(
        built.body,
        Json::Object(vec![
            member("model", text("m1")),
            member("prompt", text("Say hi")),
            member("max_tokens", Json::Number(JsonNumber::PosInt(1000))),
            member("temperature", Json::Number(JsonNumber::Real(TEMPERATURE_BITS))),
        ])
    );
}

#[test]
fn completions_constants() {
    assert_eq!(MAX_TOKENS, 1000);
    assert_eq!(f64::from_bits(TEMPERATURE_BITS), 0.7);
}

#[test]
fn completions_request_needs_model() {
    let mut query = request("lm-studio");
    query.model = None;
    let error = build_request(Provider::LocalCompletions, &query).unwrap_err();
    assert_eq!(
        error,
        LlmError::MissingField {
            provider: Provider::LocalCompletions,
            field: RequiredField::Model
        }
    );
    assert_eq!(error.message(), "Model is required for LM Studio");
}

#[test]
fn local_endpoints_are_overridable() {
    let mut query = request("local-ai");
    query.api_url = Some("http://box:9/gen".to_string());
    assert_eq!(build_request(Provider::LocalGenerate, &query).unwrap().url, "http://box:9/gen");
    assert_eq!(build_request(Provider::LocalCompletions, &query).unwrap().url, "http://box:9/gen");
}

#[test]
fn build_ignores_the_tag_in_the_request() {
    let query = request("llamafile");
    assert!(build_request(Provider::LocalCompletions, &query).is_ok());
}

#[test]
fn unsupported_provider_is_configuration_error() {
    let error = prepare_query(&request("llamafile")).unwrap_err();
    assert_eq!(error, LlmError::UnsupportedProvider);
    assert_eq!(error.kind(), ErrorKind::Configuration);
    let message = error.message();
    assert_eq!(
        message,
        "Invalid provider. Supported providers are 'openai', 'local-ai', and 'lm-studio'"
    );
    for provider in [Provider::OpenAiChat, Provider::LocalGenerate, Provider::LocalCompletions] {
        assert!(message.contains(provider.tag()));
    }
}

#[test]
fn unsupported_provider_is_refused_before_missing_fields() {
    let query = QueryLLMRequest {
        provider: "llamafile".to_string(),
        api_key: None,
        api_url: None,
        model: None,
        prompt: "x".to_string(),
    };
    assert_eq!(prepare_query(&query), Err(LlmError::UnsupportedProvider));
}

#[test]
fn prepare_names_the_provider_and_builds_its_request() {
    for (tag, provider) in [
        ("openai", Provider::OpenAiChat),
        ("local-ai", Provider::LocalGenerate),
        ("lm-studio", Provider::LocalCompletions),
    ] {
        let query = request(tag);
        let prepared = prepare_query(&query).unwrap();
        assert_eq!(prepared.provider, provider);
        assert_eq!(prepared.http, build_request(provider, &query).unwrap());
    }
}
