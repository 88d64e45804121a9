//! Text as a sequence of characters: searching and comparing.

use vstd::prelude::*;

verus! {

/// The characters of an optional text.
pub open spec fn text_of(field: Option<String>) -> Option<Seq<char>> {
    match field {
        Some(text) => Some(text@),
        None => None,
    }
}

/// `phrase` stands in `text` starting at position `at`.
pub open spec fn occurs_at(text: Seq<char>, phrase: Seq<char>, at: int) -> bool {
    &&& 0 <= at
    &&& at + phrase.len() <= text.len()
    &&& text.subrange(at, at + phrase.len()) == phrase
}

/// `phrase` stands somewhere in `text`.
pub open spec fn contains_phrase(text: Seq<char>, phrase: Seq<char>) -> bool {
    exists|at: int| occurs_at(text, phrase, at)
}

/// The characters of `text`, in order.
pub fn chars_of(text: &str) -> (chars: Vec<char>)
    ensures
        chars@ == text@,
{
    let mut chars: Vec<char> = Vec::new();
    for c in it: text.chars()
        invariant
            it.seq() == text@,
            chars@ == text@.take(it.index()),
    {
        assert(text@.take(it.index() + 1) == text@.take(it.index()).push(c));
        chars.push(c);
    }
    assert(text@.take(text@.len() as int) == text@);
    chars
}

/// Whether `text` holds exactly the characters `chars`.
pub fn text_is(text: &str, chars: &Vec<char>) -> (same: bool)
    ensures
        same == (text@ == chars@),
{
    let own = chars_of(text);
    if own.len() != chars.len() {
        return false;
    }
    let mut i: usize = 0;
    while i < own.len()
        invariant
            own@ == text@,
            own.len() == chars.len(),
            i <= own.len(),
            own@.take(i as int) == chars@.take(i as int),
        decreases own.len() - i,
    {
        if own[i] != chars[i] {
            return false;
        }
        assert(own@.take(i + 1) == own@.take(i as int).push(own@[i as int]));
        assert(chars@.take(i + 1) == chars@.take(i as int).push(chars@[i as int]));
        i += 1;
    }
    assert(own@.take(own@.len() as int) == own@);
    assert(chars@.take(chars@.len() as int) == chars@);
    true
}

/// Whether two texts hold the same characters.
pub fn same_text(a: &str, b: &str) -> (same: bool)
    ensures
        same == (a@ == b@),
{
    let chars = chars_of(b);
    text_is(a, &chars)
}

/// Whether `phrase` stands in `text` at position `at`.
fn phrase_at(text: &Vec<char>, phrase: &Vec<char>, at: usize) -> (found: bool)
    requires
        at + phrase.len() <= text.len(),
    ensures
        found == occurs_at(text@, phrase@, at as int),
{
    let mut k: usize = 0;
    while k < phrase.len()
        invariant
            at + phrase.len() <= text.len(),
            k <= phrase.len(),
            forall|j: int| 0 <= j < k ==> text@[at + j] == phrase@[j],
        decreases phrase.len() - k,
    {
        if text[at + k] != phrase[k] {
            assert(text@.subrange(at as int, at + phrase@.len())[k as int] != phrase@[k as int]);
            return false;
        }
        k += 1;
    }
    assert(text@.subrange(at as int, at + phrase@.len()) =~= phrase@);
    true
}

/// Whether `phrase` stands somewhere in `text`.
pub fn has_phrase(text: &str, phrase: &str) -> (found: bool)
    ensures
        found == contains_phrase(text@, phrase@),
{
    let haystack = chars_of(text);
    let needle = chars_of(phrase);
    if needle.len() > haystack.len() {
        return false;
    }
    let last: usize = haystack.len() - needle.len();
    let mut at: usize = 0;
    loop
        invariant
            haystack@ == text@,
            needle@ == phrase@,
            needle.len() <= haystack.len(),
            last == haystack.len() - needle.len(),
            at <= last,
            forall|j: int| 0 <= j < at ==> !occurs_at(text@, phrase@, j),
        decreases last - at,
    {
        if phrase_at(&haystack, &needle, at) {
            return true;
        }
        if at == last {
            return false;
        }
        at += 1;
    }
}

/// The position of the first `wanted` in `text`, if there is one.
pub fn first_index_of(text: &Vec<char>, wanted: char) -> (found: Option<usize>)
    ensures
        match found {
            Some(i) => text@.index_of_first(wanted) == Some(i as int),
            None => text@.index_of_first(wanted).is_none(),
        },
{
    let mut i: usize = 0;
    while i < text.len()
        invariant
            i <= text.len(),
            forall|j: int| 0 <= j < i ==> text@[j] != wanted,
        decreases text.len() - i,
    {
        if text[i] == wanted {
            proof {
                assert(text@.contains(wanted));
                text@.index_of_first_ensures(wanted);
            }
            return Some(i);
        }
        i += 1;
    }
    proof {
        text@.index_of_first_ensures(wanted);
    }
    None
}

/// The position of the last `wanted` in `text`, if there is one.
pub fn last_index_of(text: &Vec<char>, wanted: char) -> (found: Option<usize>)
    ensures
        match found {
            Some(i) => text@.index_of_last(wanted) == Some(i as int),
            None => text@.index_of_last(wanted).is_none(),
        },
{
    let mut i: usize = text.len();
    while i > 0
        invariant
            i <= text.len(),
            forall|j: int| i <= j < text.len() ==> text@[j] != wanted,
        decreases i,
    {
        i -= 1;
        if text[i] == wanted {
            proof {
                assert(text@.contains(wanted));
                text@.index_of_last_ensures(wanted);
            }
            return Some(i);
        }
    }
    proof {
        text@.index_of_last_ensures(wanted);
    }
    None
}

} // verus!
