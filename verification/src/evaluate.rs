//! Asking a model to evaluate a text, and decoding its answer.

use crate::error::LlmError;
use crate::json::{item_views, json_document, outcome_view, parse_document, Json, JsonView};
use crate::provider::{lemma_tag_names_its_provider, Provider};
use crate::request::QueryLLMRequest;
use crate::response::{member_of, QueryLLMResponse};
use crate::sanitize::{clean_json_response, cleaned};
use crate::text::{contains_phrase, occurs_at, text_of};
use vstd::prelude::*;

verus! {

/// The model that evaluates where the request names none.
pub const DEFAULT_MODEL: &'static str = "mistralai/magistral-small-2509";

/// The part of the evaluation prompt that comes before the text.
pub const PROMPT_PREAMBLE: &'static str =
    "Please evaluate the following text for grammar, readability, and clarity. Provide a score from 0-100 (where 100 is perfect) and list any major issues found. Format your response as JSON with 'score' and 'issues' fields.\n\nText to evaluate:\n";

/// The part of the evaluation prompt that comes after the text: the shape
/// that the answer must have.
pub const PROMPT_FORMAT: &'static str =
    "\n\nResponse format:\n{\n  \"score\": <number 0-100>,\n  \"issues\": [\"<issue1>\", \"<issue2>\", ...]\n}";

/// A request to evaluate a text.
#[derive(Clone, Debug, PartialEq, Eq)]
pub struct EvaluateTextRequest {
    /// The text to evaluate.
    pub text: String,
    /// The tag of the provider to ask; the local completions service where
    /// absent.
    pub provider: Option<String>,
    /// The address to send to, in place of the provider's default.
    pub api_url: Option<String>,
    /// The model to ask for; [`DEFAULT_MODEL`] where absent.
    pub model: Option<String>,
}

/// A model's evaluation of a text.
#[derive(Clone, Debug, PartialEq, Eq)]
pub struct EvaluateTextResponse {
    /// The score as the model gave it. No range is enforced.
    pub score: u64,
    /// The issues that the model listed, in its order.
    pub issues: Vec<String>,
}

/// The prompt that asks for an evaluation of `text`: the preamble, the text
/// verbatim, and the required shape of the answer.
pub open spec fn evaluation_prompt_text(text: Seq<char>) -> Seq<char> {
    PROMPT_PREAMBLE@ + text + PROMPT_FORMAT@
}

/// The texts of a list of strings, in order.
pub open spec fn texts_of(list: Seq<String>) -> Seq<Seq<char>> {
    Seq::new(list.len(), |i: int| list[i]@)
}

/// The texts of those of `items` that are strings, in order.
pub open spec fn issue_texts(items: Seq<JsonView>) -> Seq<Seq<char>> {
    items.filter_map(|item: JsonView| item.as_text())
}

/// The non-negative integer in a value that was found, nothing otherwise.
pub open spec fn unsigned_in(value: Option<JsonView>) -> Option<u64> {
    match value {
        Some(found) => found.as_unsigned(),
        None => None,
    }
}

/// The elements of a value that was found and is an array, nothing otherwise.
pub open spec fn array_in(value: Option<JsonView>) -> Option<Seq<JsonView>> {
    match value {
        Some(found) => found.as_array(),
        None => None,
    }
}

/// Whether `result` is the evaluation that `document` holds: its `score`, a
/// non-negative integer, unchanged, and the strings of its `issues`, an
/// array; or the failure that says which of the two is wrong, the score
/// first.
pub open spec fn is_evaluation_of(
    result: Result<EvaluateTextResponse, LlmError>,
    document: JsonView,
) -> bool {
    match unsigned_in(member_of(Some(document), "score"@)) {
        None => result == Err::<EvaluateTextResponse, LlmError>(LlmError::InvalidScore),
        Some(score) => match array_in(member_of(Some(document), "issues"@)) {
            None => result == Err::<EvaluateTextResponse, LlmError>(LlmError::InvalidIssues),
            Some(items) => {
                &&& result matches Ok(evaluation)
                &&& evaluation.score == score
                &&& texts_of(evaluation.issues@) == issue_texts(items)
            },
        },
    }
}

/// Whether `result` is what decoding gives, where `parsed` is what parsing
/// the cleaned answer gave.
pub open spec fn is_decoding_of(
    result: Result<EvaluateTextResponse, LlmError>,
    parsed: Result<JsonView, Seq<char>>,
) -> bool {
    match parsed {
        Err(complaint) => {
            &&& result matches Err(LlmError::MalformedEvaluation { detail })
            &&& detail@ == complaint
        },
        Ok(document) => is_evaluation_of(result, document),
    }
}

/// Builds the prompt that asks for an evaluation of `text`.
pub fn evaluation_prompt(text: &str) -> (prompt: String)
    ensures
        prompt@ == evaluation_prompt_text(text@),
{
    let mut prompt = PROMPT_PREAMBLE.to_owned();
    prompt.append(text);
    prompt.append(PROMPT_FORMAT);
    prompt
}

/// Whether `query` is the query to send for `request`: the provider and the
/// model default where absent, no credential, the caller's address, and the
/// evaluation prompt around the caller's text.
pub open spec fn is_evaluation_query(query: QueryLLMRequest, request: EvaluateTextRequest) -> bool {
    &&& query.provider@ == match request.provider {
        Some(tag) => tag@,
        None => Provider::LocalCompletions.tag_text(),
    }
    &&& query.api_key is None
    &&& text_of(query.api_url) == text_of(request.api_url)
    &&& text_of(query.model) == Some(
        match request.model {
            Some(model) => model@,
            None => DEFAULT_MODEL@,
        },
    )
    &&& query.prompt@ == evaluation_prompt_text(request.text@)
}

/// Whether `result` is how an evaluation ends after its query ended with
/// `queried`: a failed query fails the evaluation with the same failure,
/// and an answer is cleaned, parsed and read.
pub open spec fn is_evaluation_end(
    result: Result<EvaluateTextResponse, LlmError>,
    queried: Result<QueryLLMResponse, LlmError>,
) -> bool {
    match queried {
        Err(error) => result == Err::<EvaluateTextResponse, LlmError>(error),
        Ok(response) => is_decoding_of(result, json_document(cleaned(response.result@))),
    }
}

/// Turns a request for an evaluation into the query to send. Where the
/// request names no provider, the query names the local completions
/// service.
pub fn evaluation_query(request: &EvaluateTextRequest) -> (query: QueryLLMRequest)
    ensures
        is_evaluation_query(query, *request),
        request.provider is None ==> Provider::of_tag(query.provider@) == Some(
            Provider::LocalCompletions,
        ),
{
    proof {
        lemma_tag_names_its_provider(Provider::LocalCompletions);
    }
    let provider = match &request.provider {
        Some(tag) => tag.clone(),
        None => Provider::LocalCompletions.tag().to_owned(),
    };
    let model = match &request.model {
        Some(model) => model.clone(),
        None => DEFAULT_MODEL.to_owned(),
    };
    let api_url = match &request.api_url {
        Some(url) => Some(url.clone()),
        None => None,
    };
    QueryLLMRequest {
        provider,
        api_key: None,
        api_url,
        model: Some(model),
        prompt: evaluation_prompt(request.text.as_str()),
    }
}

/// Collects the strings among `items`, in order; what is no string is left
/// out.
pub fn collect_issues(items: &Vec<Json>) -> (issues: Vec<String>)
    ensures
        texts_of(issues@) == issue_texts(item_views(items@)),
{
    let ghost views = item_views(items@);
    let mut issues: Vec<String> = Vec::new();
    let mut i: usize = 0;
    assert(texts_of(issues@) =~= issue_texts(views.take(0)));
    while i < items.len()
        invariant
            i <= items.len(),
            views == item_views(items@),
            texts_of(issues@) == issue_texts(views.take(i as int)),
        decreases items.len() - i,
    {
        assert(views.take(i + 1).drop_last() == views.take(i as int));
        assert(views.take(i + 1).last() == items@[i as int]@);
        let ghost before = issues@;
        match items[i].as_text() {
            Some(text) => {
                issues.push(text.to_owned());
                assert(texts_of(issues@) =~= texts_of(before) + seq![text@]);
            },
            None => {},
        }
        i += 1;
    }
    assert(views.take(items@.len() as int) == views);
    issues
}

/// Reads the evaluation out of a decoded answer.
pub fn evaluation_from_json(document: &Json) -> (result: Result<EvaluateTextResponse, LlmError>)
    ensures
        is_evaluation_of(result, document@),
{
    let score = match document.member("score") {
        Some(value) => value.as_unsigned(),
        None => None,
    };
    let score = match score {
        Some(score) => score,
        None => {
            return Err(LlmError::InvalidScore);
        },
    };
    let items = match document.member("issues") {
        Some(value) => value.as_array(),
        None => None,
    };
    let items = match items {
        Some(items) => items,
        None => {
            return Err(LlmError::InvalidIssues);
        },
    };
    Ok(EvaluateTextResponse { score, issues: collect_issues(items) })
}

/// Reads the evaluation out of what parsing the cleaned answer gave: the
/// document, or the parser's complaint.
pub fn read_evaluation(parsed: Result<Json, String>) -> (result: Result<
    EvaluateTextResponse,
    LlmError,
>)
    ensures
        is_decoding_of(result, outcome_view(parsed)),
{
    match parsed {
        Err(detail) => Err(LlmError::MalformedEvaluation { detail }),
        Ok(document) => evaluation_from_json(&document),
    }
}

/// Decodes the evaluation from a model's answer: cleans the answer down to the
/// JSON object it contains, parses that, and reads score and issues.
pub fn decode_evaluation(answer: &str) -> (result: Result<EvaluateTextResponse, LlmError>)
    ensures
        is_decoding_of(result, json_document(cleaned(answer@))),
{
    let clean = clean_json_response(answer);
    read_evaluation(parse_document(clean.as_str()))
}

/// Ends an evaluation once its query is over: a failed query fails the
/// evaluation with the same failure, and an answer is decoded.
pub fn conclude_evaluation(queried: Result<QueryLLMResponse, LlmError>) -> (result: Result<
    EvaluateTextResponse,
    LlmError,
>)
    ensures
        is_evaluation_end(result, queried),
{
    match queried {
        Err(error) => Err(error),
        Ok(response) => decode_evaluation(response.result.as_str()),
    }
}

/// Asks a model to evaluate the text of `request`. `dispatch` runs the one
/// query: it is handed the query to send and reports the generated text or
/// the failure.
///
/// `dispatch` is called once, with the evaluation query for this request.
pub fn evaluate_text<D: FnOnce(QueryLLMRequest) -> Result<QueryLLMResponse, LlmError>>(
    request: &EvaluateTextRequest,
    dispatch: D,
) -> (result: Result<EvaluateTextResponse, LlmError>)
    requires
        forall|query: QueryLLMRequest| #[trigger]
            is_evaluation_query(query, *request) ==> dispatch.requires((query,)),
    ensures
        exists|query: QueryLLMRequest, queried: Result<QueryLLMResponse, LlmError>|
            {
                &&& is_evaluation_query(query, *request)
                &&& #[trigger] dispatch.ensures((query,), queried)
                &&& is_evaluation_end(result, queried)
            },
{
    let query = evaluation_query(request);
    let ghost sent = query;
    let queried = dispatch(query);
    let ghost ended = queried;
    let result = conclude_evaluation(queried);
    assert(dispatch.ensures((sent,), ended));
    result
}

/// The evaluation prompt holds the caller's text, verbatim, right after the
/// preamble.
pub proof fn lemma_prompt_embeds_text(text: Seq<char>)
    ensures
        occurs_at(evaluation_prompt_text(text), text, PROMPT_PREAMBLE@.len() as int),
        contains_phrase(evaluation_prompt_text(text), text),
{
    let prompt = evaluation_prompt_text(text);
    let at = PROMPT_PREAMBLE@.len() as int;
    assert(prompt.subrange(at, at + text.len()) =~= text);
}

} // verus!
