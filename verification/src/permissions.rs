//! The permission gate: which actions need a human's approval.
use vstd::prelude::*;

use crate::text::{
    ascii_lowercase, chars_of, contains_chars, contains_text, is_ascii_text, lowercase_text, lowercased, occurs_at,
};

verus! {

/// Words that mark an action as sensitive.
pub open spec fn sensitive_keywords() -> Seq<Seq<char>> {
    seq![
        "delete"@,
        "revoke"@,
        "write"@,
        "send_money"@,
        "network:public"@,
        "filesystem:/"@,
    ]
}

/// Whether `text` contains one of the sensitive keywords.
pub open spec fn has_sensitive_keyword(text: Seq<char>) -> bool {
    exists|i: int| 0 <= i < sensitive_keywords().len() && contains_text(text, #[trigger] sensitive_keywords()[i])
}

fn keyword_list() -> (v: Vec<&'static str>)
    ensures
        v@.len() == sensitive_keywords().len(),
        forall|i: int| 0 <= i < v@.len() ==> #[trigger] v@[i]@ == sensitive_keywords()[i],
{
    vec!["delete", "revoke", "write", "send_money", "network:public", "filesystem:/"]
}

/// Whether an already-normalised action text contains a sensitive keyword.
pub fn contains_sensitive_keyword(normalized: &str) -> (r: bool)
    ensures
        r == has_sensitive_keyword(normalized@),
{
    let hay = chars_of(normalized);
    let keywords = keyword_list();
    let mut i: usize = 0;
    while i < keywords.len()
        invariant
            hay@ == normalized@,
            keywords@.len() == sensitive_keywords().len(),
            forall|k: int| 0 <= k < keywords@.len() ==> #[trigger] keywords@[k]@ == sensitive_keywords()[k],
            i <= keywords@.len(),
            forall|k: int| 0 <= k < i ==> !contains_text(normalized@, #[trigger] sensitive_keywords()[k]),
        decreases keywords@.len() - i,
    {
        let needle = chars_of(keywords[i]);
        if contains_chars(&hay, &needle) {
            assert(contains_text(normalized@, sensitive_keywords()[i as int]));
            return true;
        }
        i = i + 1;
    }
    false
}

/// Whether an action needs a human's approval: its lowercased text contains
/// a sensitive keyword.
pub fn requires_human_approval(action: &str) -> (r: bool)
    ensures
        r == has_sensitive_keyword(lowercased(action@)),
{
    let normalized = lowercase_text(action);
    contains_sensitive_keyword(normalized.as_str())
}

/// Letter case does not matter to the check: two ASCII actions that are
/// equal up to the case of their letters are treated alike.
pub proof fn law_approval_ignores_ascii_case(a: Seq<char>, b: Seq<char>)
    requires
        is_ascii_text(a),
        is_ascii_text(b),
        ascii_lowercase(a) == ascii_lowercase(b),
    ensures
        has_sensitive_keyword(lowercased(a)) == has_sensitive_keyword(lowercased(b)),
{
}

/// Text around an action never lifts the approval requirement: if an ASCII
/// action needs approval, so does any ASCII text that contains it.
pub proof fn law_approval_survives_added_text(before: Seq<char>, action: Seq<char>, after: Seq<char>)
    requires
        is_ascii_text(before),
        is_ascii_text(action),
        is_ascii_text(after),
        has_sensitive_keyword(lowercased(action)),
    ensures
        has_sensitive_keyword(lowercased(before + action + after)),
{
    let whole = before + action + after;
    assert(is_ascii_text(whole)) by {
        assert forall|i: int| 0 <= i < whole.len() implies (whole[i] as u32) < 128 by {
            if i < before.len() {
                assert(whole[i] == before[i]);
            } else if i < before.len() + action.len() {
                assert(whole[i] == action[i - before.len()]);
            } else {
                assert(whole[i] == after[i - before.len() - action.len()]);
            }
        }
    }
    let la = ascii_lowercase(action);
    let lw = ascii_lowercase(whole);
    let k = choose|k: int| 0 <= k < sensitive_keywords().len() && contains_text(la, #[trigger] sensitive_keywords()[k]);
    let kw = sensitive_keywords()[k];
    let i = choose|i: int| occurs_at(la, kw, i);
    let j = before.len() + i;
    assert(lw.subrange(j, j + kw.len()) =~= la.subrange(i, i + kw.len())) by {
        assert forall|t: int| 0 <= t < kw.len() implies #[trigger] lw.subrange(j, j + kw.len())[t]
            == la.subrange(i, i + kw.len())[t] by {
            assert(whole[j + t] == action[i + t]);
        }
    }
    assert(occurs_at(lw, kw, j));
    assert(contains_text(lw, sensitive_keywords()[k]));
}

} // verus!
