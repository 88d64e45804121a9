//! Finding the generated text in what a provider answered.

use crate::error::{is_success, is_success_status, ErrorKind, LlmError};
use crate::json::{
    find_member, json_document, outcome_view, parse_document, view_of, Json, JsonView,
};
use crate::provider::Provider;
use crate::text::{contains_phrase, has_phrase, text_of};
use vstd::prelude::*;

verus! {

/// The one normalised result of a query: the text that the model generated.
#[derive(Clone, Debug, PartialEq, Eq)]
pub struct QueryLLMResponse {
    pub result: String,
}

/// How the HTTP round trip of a query ended.
#[derive(Debug, PartialEq, Eq)]
pub enum Exchange {
    /// The request could not be sent, or no answer came back. `detail` is
    /// the transport's complaint.
    Failed { detail: String },
    /// An answer came back. `body` is its body, or the transport's
    /// complaint where the body could not be read.
    Answered { status: u16, body: Result<String, String> },
}

/// The member `key` of a value that was found, nothing otherwise.
pub open spec fn member_of(value: Option<JsonView>, key: Seq<char>) -> Option<JsonView> {
    match value {
        Some(found) => found.member(key),
        None => None,
    }
}

/// The element at `index` of a value that was found, nothing otherwise.
pub open spec fn element_of(value: Option<JsonView>, index: int) -> Option<JsonView> {
    match value {
        Some(found) => found.element(index),
        None => None,
    }
}

/// The text of a value that was found and is a string, nothing otherwise.
pub open spec fn text_in(value: Option<JsonView>) -> Option<Seq<char>> {
    match value {
        Some(found) => found.as_text(),
        None => None,
    }
}

/// The generated text in a provider's answer: the string at
/// `choices[0].message.content` of a chat-completions answer, at `response`
/// of a generate answer, at `choices[0].text` of a completions answer.
pub open spec fn response_text(provider: Provider, document: JsonView) -> Option<Seq<char>> {
    match provider {
        Provider::OpenAiChat => text_in(
            member_of(
                member_of(element_of(member_of(Some(document), "choices"@), 0), "message"@),
                "content"@,
            ),
        ),
        Provider::LocalGenerate => text_in(member_of(Some(document), "response"@)),
        Provider::LocalCompletions => text_in(
            member_of(element_of(member_of(Some(document), "choices"@), 0), "text"@),
        ),
    }
}

/// Whether a body carries one of the phrases by which a service reports a
/// failure under a success status.
pub open spec fn carries_error_marker(body: Seq<char>) -> bool {
    contains_phrase(body, "Unexpected endpoint"@) || contains_phrase(body, "error"@)
}

/// Whether `result` is what a parsed body gives for `provider`: the
/// generated text, verbatim; a parse failure with the parser's complaint
/// where the body was no JSON; a parse failure where the document lacks the
/// text.
pub open spec fn is_reading_of(
    result: Result<String, LlmError>,
    provider: Provider,
    parsed: Result<JsonView, Seq<char>>,
) -> bool {
    match parsed {
        Err(complaint) => {
            &&& result matches Err(LlmError::MalformedResponse { provider: p, detail })
            &&& p == provider
            &&& detail@ == complaint
        },
        Ok(document) => match response_text(provider, document) {
            Some(text) => result matches Ok(found) && found@ == text,
            None => result == Err::<String, LlmError>(LlmError::MissingText { provider }),
        },
    }
}

/// Whether `result` is what an answer with `status` and `body` gives for
/// `provider`, where `parsed` is what parsing `body` gave: an upstream
/// failure that carries the body where the status is no success or the body
/// carries an error marker, and the reading of the parsed body otherwise.
pub open spec fn is_extraction_of(
    result: Result<String, LlmError>,
    provider: Provider,
    status: u16,
    body: Seq<char>,
    parsed: Result<JsonView, Seq<char>>,
) -> bool {
    if !is_success_status(status) || carries_error_marker(body) {
        &&& result matches Err(LlmError::Upstream { provider: p, status: s, body: b })
        &&& p == provider
        &&& s == status
        &&& b@ == body
    } else {
        is_reading_of(result, provider, parsed)
    }
}

fn member_step<'a>(value: Option<&'a Json>, key: &str) -> (found: Option<&'a Json>)
    ensures
        view_of(found) == member_of(view_of(value), key@),
{
    match value {
        Some(json) => json.member(key),
        None => None,
    }
}

fn element_step<'a>(value: Option<&'a Json>, index: usize) -> (found: Option<&'a Json>)
    ensures
        view_of(found) == element_of(view_of(value), index as int),
{
    match value {
        Some(json) => json.element(index),
        None => None,
    }
}

fn text_step(value: Option<&Json>) -> (text: Option<String>)
    ensures
        text_of(text) == text_in(view_of(value)),
{
    match value {
        Some(json) => match json.as_text() {
            Some(text) => Some(text.to_owned()),
            None => None,
        },
        None => None,
    }
}

/// Finds the generated text in a provider's answer.
pub fn extract_text(provider: Provider, document: &Json) -> (text: Option<String>)
    ensures
        text_of(text) == response_text(provider, document@),
{
    let root = Some(document);
    match provider {
        Provider::OpenAiChat => {
            let choices = member_step(root, "choices");
            let first = element_step(choices, 0);
            let message = member_step(first, "message");
            text_step(member_step(message, "content"))
        },
        Provider::LocalGenerate => text_step(member_step(root, "response")),
        Provider::LocalCompletions => {
            let choices = member_step(root, "choices");
            let first = element_step(choices, 0);
            text_step(member_step(first, "text"))
        },
    }
}

/// Whether `body` carries one of the phrases by which a service reports a
/// failure under a success status.
pub fn has_error_marker(body: &str) -> (marked: bool)
    ensures
        marked == carries_error_marker(body@),
{
    has_phrase(body, "Unexpected endpoint") || has_phrase(body, "error")
}

/// Reads the generated text out of a parsed body. `parsed` is what parsing
/// the body gave: the document, or the parser's complaint.
pub fn read_document(provider: Provider, parsed: Result<Json, String>) -> (result: Result<
    String,
    LlmError,
>)
    ensures
        is_reading_of(result, provider, outcome_view(parsed)),
{
    match parsed {
        Err(detail) => Err(LlmError::MalformedResponse { provider, detail }),
        Ok(document) => match extract_text(provider, &document) {
            Some(text) => Ok(text),
            None => Err(LlmError::MissingText { provider }),
        },
    }
}

/// Extracts the generated text from an answer with status `status` and body
/// `body`. A status that is no success, or a body that carries an error
/// marker, is an upstream failure that hands the body on; otherwise the body
/// is parsed as JSON and the text is read from where the provider puts it.
pub fn extract_response(provider: Provider, status: u16, body: &str) -> (result: Result<
    String,
    LlmError,
>)
    ensures
        is_extraction_of(result, provider, status, body@, json_document(body@)),
{
    if !is_success(status) || has_error_marker(body) {
        return Err(LlmError::Upstream { provider, status, body: body.to_owned() });
    }
    read_document(provider, parse_document(body))
}

/// Whether `result` is how a query to `provider` ends after `exchange`,
/// where `parsed` is what parsing the body gave, if a body was read.
pub open spec fn is_conclusion_of(
    result: Result<QueryLLMResponse, LlmError>,
    provider: Provider,
    exchange: Exchange,
    parsed: Result<JsonView, Seq<char>>,
) -> bool {
    match exchange {
        Exchange::Failed { detail } => {
            &&& result matches Err(LlmError::SendFailed { provider: p, detail: d })
            &&& p == provider
            &&& d@ == detail@
        },
        Exchange::Answered { status, body } => if !is_success_status(status) {
            &&& result matches Err(LlmError::Upstream { provider: p, status: s, body: b })
            &&& p == provider
            &&& s == status
            &&& b@ == match body {
                Ok(text) => text@,
                Err(_) => "Unknown error"@,
            }
        } else {
            match body {
                Err(complaint) => {
                    &&& result matches Err(LlmError::UnreadableBody { provider: p, detail: d })
                    &&& p == provider
                    &&& d@ == complaint@
                },
                Ok(text) => match result {
                    Ok(response) => is_extraction_of(
                        Ok(response.result),
                        provider,
                        status,
                        text@,
                        parsed,
                    ),
                    Err(error) => is_extraction_of(Err(error), provider, status, text@, parsed),
                },
            }
        },
    }
}

/// What parsing the body of an exchange gives, where a body was read.
pub open spec fn body_document(exchange: Exchange) -> Result<JsonView, Seq<char>> {
    match exchange {
        Exchange::Answered { status, body: Ok(text) } => json_document(text@),
        _ => Err(Seq::empty()),
    }
}

/// Ends a query to `provider` once its one HTTP round trip is over: turns
/// the outcome of the exchange into the normalised result or the failure.
pub fn conclude_query(provider: Provider, exchange: Exchange) -> (result: Result<
    QueryLLMResponse,
    LlmError,
>)
    ensures
        is_conclusion_of(result, provider, exchange, body_document(exchange)),
{
    match exchange {
        Exchange::Failed { detail } => Err(LlmError::SendFailed { provider, detail }),
        Exchange::Answered { status, body } => {
            if !is_success(status) {
                let body = match body {
                    Ok(text) => text,
                    Err(_) => "Unknown error".to_owned(),
                };
                return Err(LlmError::Upstream { provider, status, body });
            }
            match body {
                Err(detail) => Err(LlmError::UnreadableBody { provider, detail }),
                Ok(text) => match extract_response(provider, status, text.as_str()) {
                    Ok(result) => Ok(QueryLLMResponse { result }),
                    Err(error) => Err(error),
                },
            }
        },
    }
}

/// The answer of `provider` in its documented shape, with `text` as the
/// generated text.
pub open spec fn documented_answer(provider: Provider, text: Seq<char>) -> JsonView {
    match provider {
        Provider::OpenAiChat => JsonView::Object(
            seq![
                (
                    "choices"@,
                    JsonView::Array(
                        seq![
                            JsonView::Object(
                                seq![
                                    (
                                        "message"@,
                                        JsonView::Object(
                                            seq![("content"@, JsonView::String(text))],
                                        ),
                                    ),
                                ],
                            ),
                        ],
                    ),
                ),
            ],
        ),
        Provider::LocalGenerate => JsonView::Object(seq![("response"@, JsonView::String(text))]),
        Provider::LocalCompletions => JsonView::Object(
            seq![
                (
                    "choices"@,
                    JsonView::Array(seq![JsonView::Object(seq![("text"@, JsonView::String(text))])]),
                ),
            ],
        ),
    }
}

/// For each provider, the text read from an answer in the documented shape
/// is the text that the answer holds, unaltered.
pub proof fn lemma_documented_answer_yields_text(provider: Provider, text: Seq<char>)
    ensures
        response_text(provider, documented_answer(provider, text)) == Some(text),
{
    reveal_with_fuel(find_member, 2);
}

/// For each provider, extraction from a success answer whose body parses to
/// the documented shape, and carries no error marker, gives exactly the text
/// that the body holds.
pub proof fn lemma_extraction_is_verbatim(
    result: Result<String, LlmError>,
    provider: Provider,
    status: u16,
    body: Seq<char>,
    text: Seq<char>,
)
    requires
        is_success_status(status),
        !carries_error_marker(body),
        is_extraction_of(result, provider, status, body, Ok(documented_answer(provider, text))),
    ensures
        result is Ok,
        result->Ok_0@ == text,
{
    lemma_documented_answer_yields_text(provider, text);
}

/// For each provider, a status that is no success gives an upstream failure
/// that carries the body as it came, whatever the body holds.
pub proof fn lemma_failed_status_hands_body_on(
    result: Result<String, LlmError>,
    provider: Provider,
    status: u16,
    body: Seq<char>,
    parsed: Result<JsonView, Seq<char>>,
)
    requires
        !is_success_status(status),
        is_extraction_of(result, provider, status, body, parsed),
    ensures
        result is Err,
        result->Err_0.kind_of() == ErrorKind::Upstream,
        result->Err_0->Upstream_body@ == body,
        result->Err_0->Upstream_status == status,
{
}

/// For each provider, a success answer without error marker whose body is
/// no JSON, or is JSON without the text where the provider puts it, gives a
/// parse failure.
pub proof fn lemma_missing_path_is_parse_failure(
    result: Result<String, LlmError>,
    provider: Provider,
    status: u16,
    body: Seq<char>,
    parsed: Result<JsonView, Seq<char>>,
)
    requires
        is_success_status(status),
        !carries_error_marker(body),
        parsed matches Ok(document) ==> response_text(provider, document) is None,
        is_extraction_of(result, provider, status, body, parsed),
    ensures
        result is Err,
        result->Err_0.kind_of() == ErrorKind::Parse,
{
}

} // verus!
