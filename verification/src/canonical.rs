//! Canonicalization of address-bar input into a navigation target.
//!
//! The rules, of which the first that applies decides:
//! 1. blank input gives `about:blank`;
//! 2. input that parses as an absolute URL is kept, trimmed;
//! 3. input with a `.` and without a space is taken for a host and gets
//!    `https://` in front;
//! 4. anything else becomes a query to the search engine.

use vstd::prelude::*;
use crate::percent::{
    lemma_percent_encoded_chars, lemma_percent_encoded_text_nonempty, percent_encode,
    percent_encoded_text,
};
use crate::whitespace::{
    contains_char, is_blank, is_trimmed, is_whitespace, lemma_trim_contains,
    lemma_trim_empty_iff_blank, lemma_trim_is_trimmed, lemma_trim_of_trimmed, trim, trimmed,
};

verus! {

/// Whether `url::Url::parse` accepts `s` as an absolute URL.
pub uninterp spec fn url_parse_ok(s: Seq<char>) -> bool;

/// `url::Url::parse`, of which only success or failure is kept.
#[verifier::external_body]
pub(crate) fn parses_as_url(s: &str) -> (ok: bool)
    ensures
        ok == url_parse_ok(s@),
{
    url::Url::parse(s).is_ok()
}

/// The target for blank input.
pub const BLANK_TARGET: &'static str = "about:blank";

/// What is put in front of a bare host.
pub const HTTPS_PREFIX: &'static str = "https://";

/// The search engine's URL up to the query text, as used by [`canonicalize`].
pub const DEFAULT_SEARCH_PREFIX: &'static str = "https://duckduckgo.com/?q=";

/// The heuristic for a bare host or domain: a `.` and no space.
pub open spec fn looks_like_host(t: Seq<char>) -> bool {
    t.contains('.') && !t.contains(' ')
}

/// The target for trimmed input `t`, given whether `t` parses as an
/// absolute URL.
pub open spec fn resolved(t: Seq<char>, parses: bool, search_prefix: Seq<char>) -> Seq<char> {
    if t.len() == 0 {
        BLANK_TARGET@
    } else if parses {
        t
    } else if looks_like_host(t) {
        HTTPS_PREFIX@ + t
    } else {
        search_prefix + percent_encoded_text(t)
    }
}

/// The navigation target for `input`, with searches sent to `search_prefix`.
pub open spec fn canonical_with(input: Seq<char>, search_prefix: Seq<char>) -> Seq<char> {
    let t = trim(input);
    resolved(t, url_parse_ok(t), search_prefix)
}

/// The navigation target for `input`, with the default search engine.
pub open spec fn canonical(input: Seq<char>) -> Seq<char> {
    canonical_with(input, DEFAULT_SEARCH_PREFIX@)
}

/// Resolves trimmed input to its target; `parses` says whether the input
/// parses as an absolute URL.
pub fn resolve(trimmed_input: &str, parses: bool, search_prefix: &str) -> (target: String)
    ensures
        target@ == resolved(trimmed_input@, parses, search_prefix@),
{
    if trimmed_input.is_empty() {
        return String::from_str(BLANK_TARGET);
    }
    if parses {
        return String::from_str(trimmed_input);
    }
    if contains_char(trimmed_input, '.') && !contains_char(trimmed_input, ' ') {
        let mut target = String::from_str(HTTPS_PREFIX);
        target.append(trimmed_input);
        return target;
    }
    let query = percent_encode(trimmed_input);
    let mut target = String::from_str(search_prefix);
    target.append(query.as_str());
    target
}

/// Maps address-bar input to a navigation target, sending searches to
/// `search_prefix`.
pub fn canonicalize_with(input: &str, search_prefix: &str) -> (target: String)
    ensures
        target@ == canonical_with(input@, search_prefix@),
        target@.len() > 0,
{
    let t = trimmed(input);
    let parses = !t.is_empty() && parses_as_url(t);
    proof {
        lemma_canonical_nonempty(input@, search_prefix@);
    }
    resolve(t, parses, search_prefix)
}

/// Maps address-bar input to a navigation target.
pub fn canonicalize(input: &str) -> (target: String)
    ensures
        target@ == canonical(input@),
        target@.len() > 0,
{
    canonicalize_with(input, DEFAULT_SEARCH_PREFIX)
}

/// A navigation target is never empty.
pub proof fn lemma_canonical_nonempty(input: Seq<char>, search_prefix: Seq<char>)
    ensures
        canonical_with(input, search_prefix).len() > 0,
{
    let t = trim(input);
    reveal_strlit("about:blank");
    reveal_strlit("https://");
    if t.len() > 0 {
        lemma_percent_encoded_text_nonempty(t);
    }
}

/// Input that parses as an absolute URL, is not empty and has no whitespace
/// around it is its own target.
pub proof fn lemma_absolute_url_is_kept(input: Seq<char>, search_prefix: Seq<char>)
    requires
        url_parse_ok(input),
        input.len() > 0,
        is_trimmed(input),
    ensures
        canonical_with(input, search_prefix) == input,
{
    lemma_trim_of_trimmed(input);
}

/// Empty input, and input of whitespace only, gives `about:blank`.
pub proof fn lemma_blank_input_gives_blank_target(input: Seq<char>, search_prefix: Seq<char>)
    requires
        is_blank(input),
    ensures
        canonical_with(input, search_prefix) == BLANK_TARGET@,
{
    lemma_trim_empty_iff_blank(input);
}

/// Input with a `.` and without a space, whose trimmed form does not parse
/// as an absolute URL, gives `https://` followed by the trimmed form.
pub proof fn lemma_bare_host_gets_https(input: Seq<char>, search_prefix: Seq<char>)
    requires
        input.contains('.'),
        !input.contains(' '),
        !url_parse_ok(trim(input)),
    ensures
        canonical_with(input, search_prefix) == HTTPS_PREFIX@ + trim(input),
{
    lemma_trim_contains(input, '.');
    lemma_trim_contains(input, ' ');
    let t = trim(input);
    assert(t.len() > 0) by {
        let i = choose|i: int| 0 <= i < t.len() && t[i] == '.';
    }
}

/// Any other input that is not blank gives the search prefix followed by
/// the percent-encoding of the trimmed form.
pub proof fn lemma_other_input_is_searched(input: Seq<char>, search_prefix: Seq<char>)
    requires
        !is_blank(input),
        !url_parse_ok(trim(input)),
        !looks_like_host(trim(input)),
    ensures
        canonical_with(input, search_prefix) == search_prefix + percent_encoded_text(trim(input)),
{
    lemma_trim_empty_iff_blank(input);
}

/// A target has no whitespace around it, provided the search prefix does
/// not start with any.
pub proof fn lemma_canonical_is_trimmed(input: Seq<char>, search_prefix: Seq<char>)
    requires
        search_prefix.len() > 0 ==> !is_whitespace(search_prefix.first()),
    ensures
        is_trimmed(canonical_with(input, search_prefix)),
{
    let t = trim(input);
    let target = canonical_with(input, search_prefix);
    lemma_trim_is_trimmed(input);
    reveal_strlit("about:blank");
    reveal_strlit("https://");
    if t.len() == 0 {
    } else if url_parse_ok(t) {
    } else if looks_like_host(t) {
        assert(target.first() == 'h');
        assert(target.last() == t.last());
    } else {
        let query = percent_encoded_text(t);
        lemma_percent_encoded_text_nonempty(t);
        lemma_percent_encoded_chars(vstd::utf8::encode_utf8(t));
        assert(target.last() == query.last());
        assert(!is_whitespace(query[query.len() - 1]));
        if search_prefix.len() > 0 {
            assert(target.first() == search_prefix.first());
        } else {
            assert(target.first() == query[0]);
        }
    }
}

/// Canonicalizing a target that parses as an absolute URL gives the target
/// again, provided the search prefix does not start with whitespace.
pub proof fn lemma_canonical_with_idempotent(input: Seq<char>, search_prefix: Seq<char>)
    requires
        url_parse_ok(canonical_with(input, search_prefix)),
        search_prefix.len() > 0 ==> !is_whitespace(search_prefix.first()),
    ensures
        canonical_with(canonical_with(input, search_prefix), search_prefix) == canonical_with(
            input,
            search_prefix,
        ),
{
    lemma_canonical_is_trimmed(input, search_prefix);
    lemma_canonical_nonempty(input, search_prefix);
    lemma_absolute_url_is_kept(canonical_with(input, search_prefix), search_prefix);
}

/// Canonicalizing a target that parses as an absolute URL gives the target
/// again.
pub proof fn lemma_canonical_idempotent(input: Seq<char>)
    requires
        url_parse_ok(canonical(input)),
    ensures
        canonical(canonical(input)) == canonical(input),
{
    reveal_strlit("https://duckduckgo.com/?q=");
    assert(DEFAULT_SEARCH_PREFIX@.first() == 'h');
    lemma_canonical_with_idempotent(input, DEFAULT_SEARCH_PREFIX@);
}

} // verus!
