//! A whole query: prepare, one exchange, conclude.

use crate::error::LlmError;
use crate::provider::Provider;
use crate::request::{
    is_preparation_of, missing_field, prepare_query, HttpRequest, PreparedQuery, QueryLLMRequest,
};
use crate::response::{
    body_document, conclude_query, is_conclusion_of, Exchange, QueryLLMResponse,
};
use crate::text::text_of;
use vstd::prelude::*;

verus! {

/// Whether `http` is the request to send for `request`, a query to
/// `provider`. No request is to be sent for a query that names no supported
/// provider or lacks a required field.
pub open spec fn is_request_to_send(
    http: HttpRequest,
    provider: Provider,
    request: QueryLLMRequest,
) -> bool {
    is_preparation_of(
        Ok(PreparedQuery { provider, http }),
        request.provider@,
        text_of(request.api_key),
        text_of(request.api_url),
        text_of(request.model),
        request.prompt@,
    )
}

/// Asks the model that `request` names. `transport` performs the HTTP round
/// trip: it is handed the request to send and reports how the exchange
/// ended.
///
/// `transport` is called at most once, and only with the request that the
/// provider expects for this query: that is all its precondition is known
/// to admit. A query that names no supported provider, or lacks a required
/// field, fails without a call.
pub fn query_llm<T: FnOnce(HttpRequest) -> Exchange>(
    request: &QueryLLMRequest,
    transport: T,
) -> (result: Result<QueryLLMResponse, LlmError>)
    requires
        forall|provider: Provider, http: HttpRequest|
            #[trigger] is_request_to_send(http, provider, *request) ==> transport.requires(
                (http,),
            ),
    ensures
        match Provider::of_tag(request.provider@) {
            None => result == Err::<QueryLLMResponse, LlmError>(LlmError::UnsupportedProvider),
            Some(provider) => match missing_field(
                provider,
                text_of(request.api_key),
                text_of(request.model),
            ) {
                Some(field) => result == Err::<QueryLLMResponse, LlmError>(
                    LlmError::MissingField { provider, field },
                ),
                None => exists|http: HttpRequest, exchange: Exchange|
                    {
                        &&& is_request_to_send(http, provider, *request)
                        &&& #[trigger] transport.ensures((http,), exchange)
                        &&& is_conclusion_of(result, provider, exchange, body_document(exchange))
                    },
            },
        },
{
    let prepared = match prepare_query(request) {
        Ok(prepared) => prepared,
        Err(error) => {
            return Err(error);
        },
    };
    let provider = prepared.provider;
    let ghost sent = prepared.http;
    assert(is_request_to_send(sent, provider, *request));
    let exchange = transport(prepared.http);
    let ghost ended = exchange;
    let result = conclude_query(provider, exchange);
    assert(transport.ensures((sent,), ended));
    result
}

} // verus!
