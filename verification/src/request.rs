//! Building the HTTP request that a provider expects.

use crate::error::{ErrorKind, LlmError, RequiredField};
use crate::json::{item_views, member_views, Json, JsonNumber, JsonView, Member};
use crate::provider::{lemma_tag_names_its_provider, Provider};
use crate::text::text_of;
use vstd::prelude::*;

verus! {

/// The upper bound on generated tokens that a completions request asks for.
pub const MAX_TOKENS: u64 = 1000;

/// The sampling temperature of a completions request, 0.7, as the bit
/// pattern of its IEEE-754 binary64 value.
pub const TEMPERATURE_BITS: u64 = 0x3FE6_6666_6666_6666;

/// One uniform question to a language model.
#[derive(Clone, Debug, PartialEq, Eq)]
pub struct QueryLLMRequest {
    /// The tag of the provider to ask.
    pub provider: String,
    /// The credential to pass through, where the provider wants one.
    pub api_key: Option<String>,
    /// The address to send to, in place of the provider's default.
    pub api_url: Option<String>,
    /// The model to ask for.
    pub model: Option<String>,
    /// The question.
    pub prompt: String,
}

/// The HTTP method of a request.
#[derive(Clone, Copy, Debug, PartialEq, Eq, Structural)]
pub enum HttpMethod {
    Post,
}

/// One header of a request.
#[derive(Clone, Debug, PartialEq, Eq)]
pub struct Header {
    pub name: String,
    pub value: String,
}

impl View for Header {
    type V = (Seq<char>, Seq<char>);

    open spec fn view(&self) -> (Seq<char>, Seq<char>) {
        (self.name@, self.value@)
    }
}

/// A request ready to be sent: where to, with which headers, and the JSON
/// document that is its body.
#[derive(Debug, PartialEq, Eq)]
pub struct HttpRequest {
    pub method: HttpMethod,
    pub url: String,
    pub headers: Vec<Header>,
    pub body: Json,
}

/// The headers of a request as pairs of texts, in order.
pub open spec fn header_views(headers: Seq<Header>) -> Seq<(Seq<char>, Seq<char>)> {
    Seq::new(headers.len(), |i: int| headers[i]@)
}

/// The first field that `provider` insists on and the request lacks.
pub open spec fn missing_field(
    provider: Provider,
    api_key: Option<Seq<char>>,
    model: Option<Seq<char>>,
) -> Option<RequiredField> {
    match provider {
        Provider::OpenAiChat => if api_key is None {
            Some(RequiredField::ApiKey)
        } else if model is None {
            Some(RequiredField::Model)
        } else {
            None
        },
        Provider::LocalGenerate => None,
        Provider::LocalCompletions => if model is None {
            Some(RequiredField::Model)
        } else {
            None
        },
    }
}

/// Where a request to `provider` goes: the caller's address where there is
/// one and the provider lets it count, the provider's default otherwise.
pub open spec fn endpoint_for(provider: Provider, api_url: Option<Seq<char>>) -> Seq<char> {
    match api_url {
        Some(url) => if provider.endpoint_overridable() {
            url
        } else {
            provider.default_endpoint_text()
        },
        None => provider.default_endpoint_text(),
    }
}

/// The headers that a request to `provider` carries besides those that
/// sending a JSON body adds.
pub open spec fn headers_for(provider: Provider, api_key: Seq<char>) -> Seq<
    (Seq<char>, Seq<char>),
> {
    match provider {
        Provider::OpenAiChat => seq![
            ("Authorization"@, "Bearer "@ + api_key),
            ("Content-Type"@, "application/json"@),
        ],
        _ => seq![],
    }
}

/// The body of a chat-completions request.
pub open spec fn chat_body(model: Seq<char>, prompt: Seq<char>) -> JsonView {
    JsonView::Object(
        seq![
            ("model"@, JsonView::String(model)),
            (
                "messages"@,
                JsonView::Array(
                    seq![
                        JsonView::Object(
                            seq![
                                ("role"@, JsonView::String("user"@)),
                                ("content"@, JsonView::String(prompt)),
                            ],
                        ),
                    ],
                ),
            ),
            ("stream"@, JsonView::Bool(false)),
        ],
    )
}

/// The body of a generate request. It names a model only where one is
/// given and not empty.
pub open spec fn generate_body(model: Seq<char>, prompt: Seq<char>) -> JsonView {
    JsonView::Object(
        seq![("prompt"@, JsonView::String(prompt)), ("stream"@, JsonView::Bool(false))] + (
        if model.len() > 0 {
            seq![("model"@, JsonView::String(model))]
        } else {
            seq![]
        }),
    )
}

/// The body of a completions request.
pub open spec fn completions_body(model: Seq<char>, prompt: Seq<char>) -> JsonView {
    JsonView::Object(
        seq![
            ("model"@, JsonView::String(model)),
            ("prompt"@, JsonView::String(prompt)),
            ("max_tokens"@, JsonView::Number(JsonNumber::PosInt(MAX_TOKENS))),
            ("temperature"@, JsonView::Number(JsonNumber::Real(TEMPERATURE_BITS))),
        ],
    )
}

/// The body of a request to `provider`.
pub open spec fn body_for(provider: Provider, model: Seq<char>, prompt: Seq<char>) -> JsonView {
    match provider {
        Provider::OpenAiChat => chat_body(model, prompt),
        Provider::LocalGenerate => generate_body(model, prompt),
        Provider::LocalCompletions => completions_body(model, prompt),
    }
}

/// The text of an optional field, or the empty text.
pub open spec fn text_or_empty(field: Option<Seq<char>>) -> Seq<char> {
    match field {
        Some(text) => text,
        None => Seq::empty(),
    }
}

/// Whether `built` is the outcome of building the request for `provider`
/// from the given fields: the refusal that names the first missing field,
/// or the one request that the provider's rules fix.
pub open spec fn is_request_for(
    built: Result<HttpRequest, LlmError>,
    provider: Provider,
    api_key: Option<Seq<char>>,
    api_url: Option<Seq<char>>,
    model: Option<Seq<char>>,
    prompt: Seq<char>,
) -> bool {
    match missing_field(provider, api_key, model) {
        Some(field) => built == Err::<HttpRequest, LlmError>(
            LlmError::MissingField { provider, field },
        ),
        None => {
            &&& built matches Ok(http)
            &&& http.method == HttpMethod::Post
            &&& http.url@ == endpoint_for(provider, api_url)
            &&& header_views(http.headers@) == headers_for(provider, text_or_empty(api_key))
            &&& http.body@ == body_for(provider, text_or_empty(model), prompt)
        },
    }
}

fn chat_request_body(model: &str, prompt: &str) -> (body: Json)
    ensures
        body@ == chat_body(model@, prompt@),
{
    let mut message: Vec<Member> = Vec::new();
    message.push(Member::new("role", Json::text("user")));
    message.push(Member::new("content", Json::text(prompt)));
    assert(member_views(message@) =~= seq![
        ("role"@, JsonView::String("user"@)),
        ("content"@, JsonView::String(prompt@)),
    ]);
    let mut messages: Vec<Json> = Vec::new();
    messages.push(Json::object(message));
    assert(item_views(messages@) =~= seq![
        JsonView::Object(
            seq![("role"@, JsonView::String("user"@)), ("content"@, JsonView::String(prompt@))],
        ),
    ]);
    let mut members: Vec<Member> = Vec::new();
    members.push(Member::new("model", Json::text(model)));
    members.push(Member::new("messages", Json::array(messages)));
    members.push(Member::new("stream", Json::Bool(false)));
    assert(member_views(members@) =~= chat_body(model@, prompt@)->Object_0);
    Json::object(members)
}

fn generate_request_body(model: &str, prompt: &str) -> (body: Json)
    ensures
        body@ == generate_body(model@, prompt@),
{
    let mut members: Vec<Member> = Vec::new();
    members.push(Member::new("prompt", Json::text(prompt)));
    members.push(Member::new("stream", Json::Bool(false)));
    if !model.is_empty() {
        members.push(Member::new("model", Json::text(model)));
    }
    assert(member_views(members@) =~= generate_body(model@, prompt@)->Object_0);
    Json::object(members)
}

fn completions_request_body(model: &str, prompt: &str) -> (body: Json)
    ensures
        body@ == completions_body(model@, prompt@),
{
    let mut members: Vec<Member> = Vec::new();
    members.push(Member::new("model", Json::text(model)));
    members.push(Member::new("prompt", Json::text(prompt)));
    members.push(Member::new("max_tokens", Json::Number(JsonNumber::PosInt(MAX_TOKENS))));
    members.push(Member::new("temperature", Json::Number(JsonNumber::Real(TEMPERATURE_BITS))));
    assert(member_views(members@) =~= completions_body(model@, prompt@)->Object_0);
    Json::object(members)
}

/// The address to send to.
fn endpoint(provider: Provider, api_url: &Option<String>) -> (url: String)
    ensures
        url@ == endpoint_for(provider, text_of(*api_url)),
{
    match api_url {
        Some(url) => if provider != Provider::OpenAiChat {
            url.clone()
        } else {
            provider.default_endpoint().to_owned()
        },
        None => provider.default_endpoint().to_owned(),
    }
}

/// Builds the request that `provider` expects for `request`: a POST of a
/// JSON body to the provider's address. Fails, naming the field, where the
/// request lacks a field that the provider insists on. The request's own
/// provider tag plays no part.
pub fn build_request(provider: Provider, request: &QueryLLMRequest) -> (built: Result<
    HttpRequest,
    LlmError,
>)
    ensures
        is_request_for(
            built,
            provider,
            text_of(request.api_key),
            text_of(request.api_url),
            text_of(request.model),
            request.prompt@,
        ),
{
    match provider {
        Provider::OpenAiChat => {
            let api_key = match &request.api_key {
                Some(key) => key,
                None => {
                    return Err(
                        LlmError::MissingField { provider, field: RequiredField::ApiKey },
                    );
                },
            };
            let model = match &request.model {
                Some(model) => model,
                None => {
                    return Err(LlmError::MissingField { provider, field: RequiredField::Model });
                },
            };
            let mut bearer = "Bearer ".to_owned();
            bearer.append(api_key.as_str());
            let mut headers: Vec<Header> = Vec::new();
            headers.push(Header { name: "Authorization".to_owned(), value: bearer });
            headers.push(
                Header { name: "Content-Type".to_owned(), value: "application/json".to_owned() },
            );
            assert(header_views(headers@) =~= headers_for(provider, api_key@));
            Ok(
                HttpRequest {
                    method: HttpMethod::Post,
                    url: endpoint(provider, &request.api_url),
                    headers,
                    body: chat_request_body(model.as_str(), request.prompt.as_str()),
                },
            )
        },
        Provider::LocalGenerate => {
            let body = match &request.model {
                Some(model) => generate_request_body(model.as_str(), request.prompt.as_str()),
                None => generate_request_body("", request.prompt.as_str()),
            };
            proof {
                reveal_strlit("");
            }
            let headers: Vec<Header> = Vec::new();
            assert(header_views(headers@) =~= headers_for(
                provider,
                text_or_empty(text_of(request.api_key)),
            ));
            Ok(
                HttpRequest {
                    method: HttpMethod::Post,
                    url: endpoint(provider, &request.api_url),
                    headers,
                    body,
                },
            )
        },
        Provider::LocalCompletions => {
            let model = match &request.model {
                Some(model) => model,
                None => {
                    return Err(LlmError::MissingField { provider, field: RequiredField::Model });
                },
            };
            let headers: Vec<Header> = Vec::new();
            assert(header_views(headers@) =~= headers_for(
                provider,
                text_or_empty(text_of(request.api_key)),
            ));
            Ok(
                HttpRequest {
                    method: HttpMethod::Post,
                    url: endpoint(provider, &request.api_url),
                    headers,
                    body: completions_request_body(model.as_str(), request.prompt.as_str()),
                },
            )
        },
    }
}

/// A query that is ready to be sent: the provider that the request names,
/// and the request that this provider expects.
#[derive(Debug, PartialEq, Eq)]
pub struct PreparedQuery {
    pub provider: Provider,
    pub http: HttpRequest,
}

/// Whether `prepared` is the outcome of preparing a query with the given
/// fields: a refusal where the tag names no supported provider, and
/// otherwise the outcome of building the request for the provider it names.
pub open spec fn is_preparation_of(
    prepared: Result<PreparedQuery, LlmError>,
    tag: Seq<char>,
    api_key: Option<Seq<char>>,
    api_url: Option<Seq<char>>,
    model: Option<Seq<char>>,
    prompt: Seq<char>,
) -> bool {
    match Provider::of_tag(tag) {
        None => prepared == Err::<PreparedQuery, LlmError>(LlmError::UnsupportedProvider),
        Some(provider) => match prepared {
            Ok(query) => {
                &&& query.provider == provider
                &&& is_request_for(Ok(query.http), provider, api_key, api_url, model, prompt)
            },
            Err(error) => is_request_for(Err(error), provider, api_key, api_url, model, prompt),
        },
    }
}

/// Prepares a query: reads the provider tag and builds the request that the
/// provider expects. Nothing is sent here, so a request that names no
/// supported provider, or lacks a required field, fails before any exchange.
pub fn prepare_query(request: &QueryLLMRequest) -> (prepared: Result<PreparedQuery, LlmError>)
    ensures
        is_preparation_of(
            prepared,
            request.provider@,
            text_of(request.api_key),
            text_of(request.api_url),
            text_of(request.model),
            request.prompt@,
        ),
{
    let provider = match Provider::from_tag(request.provider.as_str()) {
        Some(provider) => provider,
        None => {
            return Err(LlmError::UnsupportedProvider);
        },
    };
    match build_request(provider, request) {
        Ok(http) => Ok(PreparedQuery { provider, http }),
        Err(error) => Err(error),
    }
}

/// A chat-completions query without a model is refused as a configuration
/// failure, whatever else it holds; where it has a credential, the refusal
/// names the model.
pub proof fn lemma_chat_query_needs_model(
    prepared: Result<PreparedQuery, LlmError>,
    api_key: Option<Seq<char>>,
    api_url: Option<Seq<char>>,
    prompt: Seq<char>,
)
    requires
        is_preparation_of(
            prepared,
            Provider::OpenAiChat.tag_text(),
            api_key,
            api_url,
            None,
            prompt,
        ),
    ensures
        prepared is Err,
        prepared->Err_0.kind_of() == ErrorKind::Configuration,
        api_key is Some ==> prepared->Err_0 == (LlmError::MissingField {
            provider: Provider::OpenAiChat,
            field: RequiredField::Model,
        }),
{
    lemma_tag_names_its_provider(Provider::OpenAiChat);
}

/// A query whose tag names no supported provider is refused as a
/// configuration failure, whatever else it holds.
pub proof fn lemma_unknown_tag_is_refused(
    prepared: Result<PreparedQuery, LlmError>,
    tag: Seq<char>,
    api_key: Option<Seq<char>>,
    api_url: Option<Seq<char>>,
    model: Option<Seq<char>>,
    prompt: Seq<char>,
)
    requires
        tag != Provider::OpenAiChat.tag_text(),
        tag != Provider::LocalGenerate.tag_text(),
        tag != Provider::LocalCompletions.tag_text(),
        is_preparation_of(prepared, tag, api_key, api_url, model, prompt),
    ensures
        prepared == Err::<PreparedQuery, LlmError>(LlmError::UnsupportedProvider),
        prepared->Err_0.kind_of() == ErrorKind::Configuration,
{
}

/// The caller's address never replaces that of the chat-completions
/// service, and always replaces that of a local service.
pub proof fn lemma_endpoint_override(provider: Provider, url: Seq<char>)
    ensures
        endpoint_for(Provider::OpenAiChat, Some(url))
            == Provider::OpenAiChat.default_endpoint_text(),
        provider != Provider::OpenAiChat ==> endpoint_for(provider, Some(url)) == url,
        endpoint_for(provider, None) == provider.default_endpoint_text(),
{
}

} // verus!
