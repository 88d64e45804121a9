//! The upstream services a query can be sent to.

use crate::text::same_text;
use vstd::prelude::*;

verus! {

/// One of the supported text-generation services. Each has its own request
/// and response layout.
#[derive(Clone, Copy, Debug, PartialEq, Eq, Structural)]
pub enum Provider {
    /// A hosted chat-completions service.
    OpenAiChat,
    /// A local generate-style service.
    LocalGenerate,
    /// A local completions-style service.
    LocalCompletions,
}

impl Provider {
    /// The tag that names this provider in a request.
    pub open spec fn tag_text(self) -> Seq<char> {
        match self {
            Provider::OpenAiChat => "openai"@,
            Provider::LocalGenerate => "local-ai"@,
            Provider::LocalCompletions => "lm-studio"@,
        }
    }

    /// The provider that a tag names, if it names one.
    pub open spec fn of_tag(tag: Seq<char>) -> Option<Provider> {
        if tag == "openai"@ {
            Some(Provider::OpenAiChat)
        } else if tag == "local-ai"@ {
            Some(Provider::LocalGenerate)
        } else if tag == "lm-studio"@ {
            Some(Provider::LocalCompletions)
        } else {
            None
        }
    }

    /// The name of the service as it appears in messages.
    pub open spec fn label_text(self) -> Seq<char> {
        match self {
            Provider::OpenAiChat => "OpenAI"@,
            Provider::LocalGenerate => "Local AI"@,
            Provider::LocalCompletions => "LM Studio"@,
        }
    }

    /// The address a request goes to unless the caller names another.
    pub open spec fn default_endpoint_text(self) -> Seq<char> {
        match self {
            Provider::OpenAiChat => "https://api.openai.com/v1/chat/completions"@,
            Provider::LocalGenerate => "http://localhost:11434/api/generate"@,
            Provider::LocalCompletions => "http://localhost:1234/v1/completions"@,
        }
    }

    /// Whether a caller may name another address than the default.
    pub open spec fn endpoint_overridable(self) -> bool {
        self != Provider::OpenAiChat
    }

    /// The name of the response field that holds the generated text.
    pub open spec fn text_field_text(self) -> Seq<char> {
        match self {
            Provider::OpenAiChat => "content"@,
            Provider::LocalGenerate => "response"@,
            Provider::LocalCompletions => "text"@,
        }
    }

    /// The tag that names this provider in a request.
    pub fn tag(self) -> (tag: &'static str)
        ensures
            tag@ == self.tag_text(),
    {
        match self {
            Provider::OpenAiChat => "openai",
            Provider::LocalGenerate => "local-ai",
            Provider::LocalCompletions => "lm-studio",
        }
    }

    /// Reads a provider tag. Any text other than the three tags names no
    /// provider.
    pub fn from_tag(tag: &str) -> (provider: Option<Provider>)
        ensures
            provider == Provider::of_tag(tag@),
    {
        if same_text(tag, "openai") {
            Some(Provider::OpenAiChat)
        } else if same_text(tag, "local-ai") {
            Some(Provider::LocalGenerate)
        } else if same_text(tag, "lm-studio") {
            Some(Provider::LocalCompletions)
        } else {
            None
        }
    }

    /// The name of the service as it appears in messages.
    pub fn label(self) -> (label: &'static str)
        ensures
            label@ == self.label_text(),
    {
        match self {
            Provider::OpenAiChat => "OpenAI",
            Provider::LocalGenerate => "Local AI",
            Provider::LocalCompletions => "LM Studio",
        }
    }

    /// The address a request goes to unless the caller names another.
    pub fn default_endpoint(self) -> (url: &'static str)
        ensures
            url@ == self.default_endpoint_text(),
    {
        match self {
            Provider::OpenAiChat => "https://api.openai.com/v1/chat/completions",
            Provider::LocalGenerate => "http://localhost:11434/api/generate",
            Provider::LocalCompletions => "http://localhost:1234/v1/completions",
        }
    }

    /// The name of the response field that holds the generated text.
    pub fn text_field(self) -> (field: &'static str)
        ensures
            field@ == self.text_field_text(),
    {
        match self {
            Provider::OpenAiChat => "content",
            Provider::LocalGenerate => "response",
            Provider::LocalCompletions => "text",
        }
    }
}

/// Every provider is the one that its own tag names: the three tags are
/// distinct.
pub proof fn lemma_tag_names_its_provider(provider: Provider)
    ensures
        Provider::of_tag(provider.tag_text()) == Some(provider),
{
    reveal_strlit("openai");
    reveal_strlit("local-ai");
    reveal_strlit("lm-studio");
    assert("openai"@.len() == 6);
    assert("local-ai"@.len() == 8);
    assert("lm-studio"@.len() == 9);
}

} // verus!
