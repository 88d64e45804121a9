use llm_query::sanitize::{choose_clean, clean_json_response, json_candidate};

#[test]
fn clean_cuts_object_out_of_noise() {
    assert_eq!(clean_json_response("noise {\"a\":1} trailing"), "{\"a\":1}");
}

#[test]
fn clean_keeps_text_without_braces() {
    assert_eq!(clean_json_response("no braces here"), "no braces here");
}

#[test]
fn clean_keeps_text_without_closer() {
    assert_eq!(clean_json_response("{ malformed"), "{ malformed");
}

#[test]
fn clean_keeps_text_whose_span_is_no_json() {
    assert_eq!(clean_json_response("see {this} or {that}"), "see {this} or {that}");
    assert_eq!(clean_json_response("{\"a\":1} and {\"b\":2}"), "{\"a\":1} and {\"b\":2}");
    assert_eq!(clean_json_response("} {"), "} {");
}

#[test]
fn clean_keeps_an_object_as_it_is() {
    assert_eq!(clean_json_response("{\"a\":{\"b\":[1,2]}}"), "{\"a\":{\"b\":[1,2]}}");
    assert_eq!(clean_json_response("{}"), "{}");
}

#[test]
fn clean_counts_characters_not_bytes() {
    assert_eq!(clean_json_response("é… {\"k\":\"ü\"} ✓"), "{\"k\":\"ü\"}");
}

#[test]
fn candidate_spans_first_open_to_last_close() {
    assert_eq!(json_candidate("a{b}c}d"), Some("{b}c}"));
    assert_eq!(json_candidate("{}"), Some("{}"));
    assert_eq!(json_candidate("}{"), None);
    assert_eq!(json_candidate("{"), None);
    assert_eq!(json_candidate("}"), None);
    assert_eq!(json_candidate(""), None);
}

#[test]
fn choose_clean_takes_the_candidate_only_if_it_parses() {
    assert_eq!(choose_clean("x {1} y", Some("{1}"), true), "{1}");
    assert_eq!(choose_clean("x {1} y", Some("{1}"), false), "x {1} y");
    assert_eq!(choose_clean("x y", None, false), "x y");
    assert_eq!(choose_clean("x y", None, true), "x y");
}
