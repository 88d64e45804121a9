//! Best-effort recovery of a JSON object from free text.

use crate::json::{json_document, parse_document};
use crate::text::{chars_of, first_index_of, last_index_of};
use vstd::prelude::*;

verus! {

/// The stretch of `text` from its first `{` to its last `}`, both included,
/// where the last `}` comes after the first `{`.
pub open spec fn brace_span(text: Seq<char>) -> Option<Seq<char>> {
    match (text.index_of_first('{'), text.index_of_last('}')) {
        (Some(start), Some(end)) => if start < end < text.len() {
            Some(text.subrange(start, end + 1))
        } else {
            None
        },
        _ => None,
    }
}

/// What cleaning makes of `text`: its brace span where that span is a JSON
/// document, and `text` itself otherwise.
pub open spec fn cleaned(text: Seq<char>) -> Seq<char> {
    match brace_span(text) {
        Some(span) => if json_document(span) is Ok {
            span
        } else {
            text
        },
        None => text,
    }
}

/// Cuts the candidate JSON object out of `text`: everything from the first
/// `{` to the last `}`.
pub fn json_candidate(text: &str) -> (candidate: Option<&str>)
    ensures
        match candidate {
            Some(span) => brace_span(text@) == Some(span@),
            None => brace_span(text@).is_none(),
        },
{
    let chars = chars_of(text);
    match first_index_of(&chars, '{') {
        None => None,
        Some(start) => match last_index_of(&chars, '}') {
            None => None,
            Some(end) => {
                proof {
                    chars@.index_of_last_ensures('}');
                }
                assert(end < chars.len());
                if end > start {
                    Some(text.substring_char(start, end + 1))
                } else {
                    None
                }
            },
        },
    }
}

/// Picks between the candidate and the whole text, given whether the
/// candidate parsed.
pub fn choose_clean(text: &str, candidate: Option<&str>, candidate_parses: bool) -> (clean: String)
    ensures
        clean@ == match candidate {
            Some(span) => if candidate_parses {
                span@
            } else {
                text@
            },
            None => text@,
        },
{
    match candidate {
        Some(span) => if candidate_parses {
            span.to_owned()
        } else {
            text.to_owned()
        },
        None => text.to_owned(),
    }
}

/// Extracts the JSON object that `response` contains: the text from the
/// first `{` to the last `}` if that text is valid JSON, and `response`
/// unchanged otherwise.
pub fn clean_json_response(response: &str) -> (clean: String)
    ensures
        clean@ == cleaned(response@),
{
    let candidate = json_candidate(response);
    let parses = match candidate {
        Some(span) => parse_document(span).is_ok(),
        None => false,
    };
    choose_clean(response, candidate, parses)
}

/// Cleaning either keeps the text as it is, or cuts it down to a JSON
/// document that starts with `{` and ends with `}`.
pub proof fn lemma_cleaned_is_text_or_object(text: Seq<char>)
    ensures
        cleaned(text) == text || {
            &&& json_document(cleaned(text)) is Ok
            &&& cleaned(text).len() >= 2
            &&& cleaned(text).first() == '{'
            &&& cleaned(text).last() == '}'
        },
{
    text.index_of_first_ensures('{');
    text.index_of_last_ensures('}');
}

/// A text without `{`, or without `}`, is kept as it is.
pub proof fn lemma_text_without_braces_is_kept(text: Seq<char>)
    requires
        !text.contains('{') || !text.contains('}'),
    ensures
        cleaned(text) == text,
{
    text.index_of_first_ensures('{');
    text.index_of_last_ensures('}');
}

} // verus!
