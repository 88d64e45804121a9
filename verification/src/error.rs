//! What can go wrong with a query or an evaluation.

use crate::provider::Provider;
use crate::text::{contains_phrase, occurs_at};
use vstd::prelude::*;

verus! {

/// The five kinds of failure.
#[derive(Clone, Copy, Debug, PartialEq, Eq, Structural)]
pub enum ErrorKind {
    /// A required field is absent, or the provider tag is not recognised.
    Configuration,
    /// The HTTP exchange did not complete.
    Network,
    /// The service answered with a failure.
    Upstream,
    /// An answer is not valid JSON or lacks the expected path.
    Parse,
    /// An evaluation decoded but lacks a required field of the right type.
    Validation,
}

/// A request field that some provider insists on.
#[derive(Clone, Copy, Debug, PartialEq, Eq, Structural)]
pub enum RequiredField {
    ApiKey,
    Model,
}

impl RequiredField {
    /// The field's name in a request.
    pub open spec fn name_text(self) -> Seq<char> {
        match self {
            RequiredField::ApiKey => "api_key"@,
            RequiredField::Model => "model"@,
        }
    }

    /// The field's name at the start of a sentence.
    pub open spec fn label_text(self) -> Seq<char> {
        match self {
            RequiredField::ApiKey => "API key"@,
            RequiredField::Model => "Model"@,
        }
    }

    /// The field's name in a request.
    pub fn name(self) -> (name: &'static str)
        ensures
            name@ == self.name_text(),
    {
        match self {
            RequiredField::ApiKey => "api_key",
            RequiredField::Model => "model",
        }
    }

    /// The field's name at the start of a sentence.
    pub fn label(self) -> (label: &'static str)
        ensures
            label@ == self.label_text(),
    {
        match self {
            RequiredField::ApiKey => "API key",
            RequiredField::Model => "Model",
        }
    }
}

/// A failed query or evaluation.
#[derive(Clone, Debug, PartialEq, Eq)]
pub enum LlmError {
    /// The provider tag names none of the supported providers.
    UnsupportedProvider,
    /// The request lacks a field that the provider insists on.
    MissingField { provider: Provider, field: RequiredField },
    /// The request could not be sent, or no answer came back.
    SendFailed { provider: Provider, detail: String },
    /// An answer came back with a success status, but its body could not be read.
    UnreadableBody { provider: Provider, detail: String },
    /// The service answered with a failure: a status that is no success, or
    /// a success status on a body that carries an error message.
    Upstream { provider: Provider, status: u16, body: String },
    /// The body of the answer is not valid JSON.
    MalformedResponse { provider: Provider, detail: String },
    /// The answer is valid JSON but holds no text where the provider puts it.
    MissingText { provider: Provider },
    /// The text to decode an evaluation from is not valid JSON.
    MalformedEvaluation { detail: String },
    /// The evaluation has no `score` that is a non-negative integer.
    InvalidScore,
    /// The evaluation has no `issues` that is an array.
    InvalidIssues,
}

/// Whether an HTTP status is a success: 200 to 299.
pub open spec fn is_success_status(status: u16) -> bool {
    200 <= status < 300
}

impl LlmError {
    /// The kind of this failure.
    pub open spec fn kind_of(self) -> ErrorKind {
        match self {
            LlmError::UnsupportedProvider => ErrorKind::Configuration,
            LlmError::MissingField { .. } => ErrorKind::Configuration,
            LlmError::SendFailed { .. } => ErrorKind::Network,
            LlmError::UnreadableBody { .. } => ErrorKind::Network,
            LlmError::Upstream { .. } => ErrorKind::Upstream,
            LlmError::MalformedResponse { .. } => ErrorKind::Parse,
            LlmError::MissingText { .. } => ErrorKind::Parse,
            LlmError::MalformedEvaluation { .. } => ErrorKind::Parse,
            LlmError::InvalidScore => ErrorKind::Validation,
            LlmError::InvalidIssues => ErrorKind::Validation,
        }
    }

    /// The message that describes this failure to a reader.
    pub open spec fn message_text(self) -> Seq<char> {
        match self {
            LlmError::UnsupportedProvider =>
                "Invalid provider. Supported providers are 'openai', 'local-ai', and 'lm-studio'"@,
            LlmError::MissingField { provider, field } => field.label_text()
                + " is required for "@ + provider.label_text(),
            LlmError::SendFailed { provider, detail } => "Failed to send request to "@
                + provider.label_text() + ": "@ + detail@,
            LlmError::UnreadableBody { provider, detail } => (if provider
                == Provider::LocalCompletions {
                "Failed to read "@
            } else {
                "Failed to parse "@
            }) + provider.label_text() + " response: "@ + detail@,
            LlmError::Upstream { provider, status, body } => if is_success_status(status) {
                "AI Server Error: "@ + body@
            } else {
                provider.label_text() + " API error: "@ + body@
            },
            LlmError::MalformedResponse { provider, detail } => "Failed to parse "@
                + provider.label_text() + " response: "@ + detail@,
            LlmError::MissingText { provider } => "Failed to extract "@
                + provider.text_field_text() + " from "@ + provider.label_text() + " response"@,
            LlmError::MalformedEvaluation { detail } => "Failed to parse AI response as JSON: "@
                + detail@,
            LlmError::InvalidScore => "score missing or not numeric"@,
            LlmError::InvalidIssues => "issues missing or not an array"@,
        }
    }

    /// The kind of this failure.
    pub fn kind(&self) -> (kind: ErrorKind)
        ensures
            kind == self.kind_of(),
    {
        match self {
            LlmError::UnsupportedProvider => ErrorKind::Configuration,
            LlmError::MissingField { .. } => ErrorKind::Configuration,
            LlmError::SendFailed { .. } => ErrorKind::Network,
            LlmError::UnreadableBody { .. } => ErrorKind::Network,
            LlmError::Upstream { .. } => ErrorKind::Upstream,
            LlmError::MalformedResponse { .. } => ErrorKind::Parse,
            LlmError::MissingText { .. } => ErrorKind::Parse,
            LlmError::MalformedEvaluation { .. } => ErrorKind::Parse,
            LlmError::InvalidScore => ErrorKind::Validation,
            LlmError::InvalidIssues => ErrorKind::Validation,
        }
    }

    /// The message that describes this failure to a reader.
    pub fn message(&self) -> (text: String)
        ensures
            text@ == self.message_text(),
    {
        match self {
            LlmError::UnsupportedProvider =>
                "Invalid provider. Supported providers are 'openai', 'local-ai', and 'lm-studio'".to_owned(),
            LlmError::MissingField { provider, field } => {
                let mut text = field.label().to_owned();
                text.append(" is required for ");
                text.append(provider.label());
                text
            },
            LlmError::SendFailed { provider, detail } => {
                let mut text = "Failed to send request to ".to_owned();
                text.append(provider.label());
                text.append(": ");
                text.append(detail.as_str());
                text
            },
            LlmError::UnreadableBody { provider, detail } => {
                let mut text = if *provider == Provider::LocalCompletions {
                    "Failed to read ".to_owned()
                } else {
                    "Failed to parse ".to_owned()
                };
                text.append(provider.label());
                text.append(" response: ");
                text.append(detail.as_str());
                text
            },
            LlmError::Upstream { provider, status, body } => {
                if is_success(*status) {
                    let mut text = "AI Server Error: ".to_owned();
                    text.append(body.as_str());
                    text
                } else {
                    let mut text = provider.label().to_owned();
                    text.append(" API error: ");
                    text.append(body.as_str());
                    text
                }
            },
            LlmError::MalformedResponse { provider, detail } => {
                let mut text = "Failed to parse ".to_owned();
                text.append(provider.label());
                text.append(" response: ");
                text.append(detail.as_str());
                text
            },
            LlmError::MissingText { provider } => {
                let mut text = "Failed to extract ".to_owned();
                text.append(provider.text_field());
                text.append(" from ");
                text.append(provider.label());
                text.append(" response");
                text
            },
            LlmError::MalformedEvaluation { detail } => {
                let mut text = "Failed to parse AI response as JSON: ".to_owned();
                text.append(detail.as_str());
                text
            },
            LlmError::InvalidScore => "score missing or not numeric".to_owned(),
            LlmError::InvalidIssues => "issues missing or not an array".to_owned(),
        }
    }
}

/// Whether an HTTP status is a success: 200 to 299.
pub fn is_success(status: u16) -> (success: bool)
    ensures
        success == is_success_status(status),
{
    200 <= status && status < 300
}

/// The message that refuses an unsupported provider lists the tag of every
/// supported one.
pub proof fn lemma_refusal_lists_providers(provider: Provider)
    ensures
        contains_phrase(LlmError::UnsupportedProvider.message_text(), provider.tag_text()),
{
    reveal_strlit(
        "Invalid provider. Supported providers are 'openai', 'local-ai', and 'lm-studio'",
    );
    reveal_strlit("openai");
    reveal_strlit("local-ai");
    reveal_strlit("lm-studio");
    let message = LlmError::UnsupportedProvider.message_text();
    let tag = provider.tag_text();
    let at: int = match provider {
        Provider::OpenAiChat => 43,
        Provider::LocalGenerate => 53,
        Provider::LocalCompletions => 69,
    };
    assert(message.subrange(at, at + tag.len()) =~= tag);
    assert(occurs_at(message, tag, at));
}

/// The message that refuses a request for want of a field starts with the
/// field's label and ends with the provider's.
pub proof fn lemma_missing_field_is_named(provider: Provider, field: RequiredField)
    ensures
        field.label_text().is_prefix_of(
            (LlmError::MissingField { provider, field }).message_text(),
        ),
        contains_phrase(
            (LlmError::MissingField { provider, field }).message_text(),
            provider.label_text(),
        ),
{
    let message = (LlmError::MissingField { provider, field }).message_text();
    let at = (field.label_text() + " is required for "@).len() as int;
    assert(message.subrange(at, at + provider.label_text().len()) =~= provider.label_text());
    assert(occurs_at(message, provider.label_text(), at));
}

} // verus!
