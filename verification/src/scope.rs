use vstd::prelude::*;

use crate::text::{
    chars_equal, chars_of, is_white_space, lemma_white_space_has_no_words, lemma_words_concat,
    split_whitespace, words,
};

verus! {

/// Every scope named in `requested` is among the scopes named in `allowed`;
/// scopes are the white-space separated words of each string.
pub open spec fn scopes_allowed(requested: Seq<char>, allowed: Seq<char>) -> bool {
    forall|i: int|
        0 <= i < words(requested).len() ==> #[trigger] words(allowed).contains(words(requested)[i])
}

/// Whether `word` is one of `list`.
fn contains_word(list: &Vec<Vec<char>>, word: &Vec<char>) -> (r: bool)
    ensures
        r == list@.map_values(|v: Vec<char>| v@).contains(word@),
{
    let ghost views = list@.map_values(|v: Vec<char>| v@);
    for i in 0..list.len()
        invariant
            views == list@.map_values(|v: Vec<char>| v@),
            forall|j: int| 0 <= j < i ==> views[j] != word@,
    {
        if chars_equal(&list[i], word) {
            assert(views[i as int] == word@);
            return true;
        }
    }
    false
}

/// Checks that each scope of `requested` is one of the scopes of `allowed`.
pub fn compare_scope_strings(requested: &str, allowed: &str) -> (r: bool)
    ensures
        r == scopes_allowed(requested@, allowed@),
{
    let req_scopes = split_whitespace(&chars_of(requested));
    let allowed_scopes = split_whitespace(&chars_of(allowed));
    let ghost req = words(requested@);
    let ghost alw = words(allowed@);
    for i in 0..req_scopes.len()
        invariant
            req_scopes@.map_values(|v: Vec<char>| v@) == req,
            allowed_scopes@.map_values(|v: Vec<char>| v@) == alw,
            req == words(requested@),
            alw == words(allowed@),
            forall|j: int| 0 <= j < i ==> #[trigger] alw.contains(req[j]),
    {
        if !contains_word(&allowed_scopes, &req_scopes[i]) {
            assert(req[i as int] == req_scopes@[i as int]@);
            return false;
        }
    }
    true
}

/// Any scope string allows itself.
pub proof fn lemma_scopes_allowed_reflexive(s: Seq<char>)
    ensures
        scopes_allowed(s, s),
{
    assert forall|i: int| 0 <= i < words(s).len() implies #[trigger] words(s).contains(
        words(s)[i],
    ) by {}
}

/// What `b` allows, and `b` is allowed by `c`, `c` allows too.
pub proof fn lemma_scopes_allowed_transitive(a: Seq<char>, b: Seq<char>, c: Seq<char>)
    requires
        scopes_allowed(a, b),
        scopes_allowed(b, c),
    ensures
        scopes_allowed(a, c),
{
    assert forall|i: int| 0 <= i < words(a).len() implies #[trigger] words(c).contains(
        words(a)[i],
    ) by {
        assert(words(b).contains(words(a)[i]));
        let j = choose|j: int| 0 <= j < words(b).len() && words(b)[j] == words(a)[i];
        assert(words(c).contains(words(b)[j]));
    }
}

/// A request that names no scope (empty, or white space only) is allowed
/// whatever the client's scopes.
pub proof fn lemma_no_scope_is_allowed(requested: Seq<char>, allowed: Seq<char>)
    requires
        forall|j: int| 0 <= j < requested.len() ==> is_white_space(#[trigger] requested[j]),
    ensures
        scopes_allowed(requested, allowed),
{
    lemma_white_space_has_no_words(requested);
}

/// Two requests joined by white space are allowed exactly when each is.
pub proof fn lemma_scopes_allowed_concat(a: Seq<char>, c: char, b: Seq<char>, allowed: Seq<char>)
    requires
        is_white_space(c),
    ensures
        scopes_allowed(a + seq![c] + b, allowed) == (scopes_allowed(a, allowed) && scopes_allowed(
            b,
            allowed,
        )),
{
    lemma_words_concat(a, c, b);
    let w = words(a + seq![c] + b);
    let wa = words(a);
    let wb = words(b);
    assert(w == wa + wb);
    if scopes_allowed(a + seq![c] + b, allowed) {
        assert forall|i: int| 0 <= i < wa.len() implies #[trigger] words(allowed).contains(wa[i]) by {
            assert(w[i] == wa[i]);
        }
        assert forall|i: int| 0 <= i < wb.len() implies #[trigger] words(allowed).contains(wb[i]) by {
            assert(w[wa.len() + i] == wb[i]);
        }
    }
    if scopes_allowed(a, allowed) && scopes_allowed(b, allowed) {
        assert forall|i: int| 0 <= i < w.len() implies #[trigger] words(allowed).contains(w[i]) by {
            if i < wa.len() {
                assert(w[i] == wa[i]);
            } else {
                assert(w[i] == wb[i - wa.len()]);
            }
        }
    }
}

} // verus!
