//! Rewrites chat templates so that constructs the renderer mishandles are patched
//! before rendering. Applied to every model template at load time.

use vstd::prelude::*;
use crate::text::{
    lemma_replace_absent, lemma_replace_leaves_no_pattern, replace_all, seq_contains, shares_no_char,
    str_contains, str_replace,
};

verus! {

/// The patches applied to a chat template, in order:
/// 1. Python-style reverse slicing `[::-1]` becomes the `|reverse` filter.
/// 2. When `{{ meta }}` is referenced, the `meta` assignments and references are removed.
/// 3. The `| safe` filter is dropped (`| tojson | safe` and `|tojson|safe` become `| tojson`).
/// 4. `arguments | items` becomes `arguments.items()`.
pub open spec fn sanitized(raw: Seq<char>) -> Seq<char> {
    let t = replace_all(raw, "[::-1]"@, "|reverse"@);
    let t = if seq_contains(t, "{{ meta }}"@) {
        let t = replace_all(t, "{%- set meta = message.get(\"metadata\", \"\") %}"@, ""@);
        let t = replace_all(t, "{% set meta = message.get(\"metadata\", \"\") %}"@, ""@);
        replace_all(t, "{{ meta }}"@, ""@)
    } else {
        t
    };
    let t = replace_all(t, "| tojson | safe"@, "| tojson"@);
    let t = replace_all(t, "|tojson|safe"@, "| tojson"@);
    let t = replace_all(t, "| safe"@, ""@);
    replace_all(t, "arguments | items"@, "arguments.items()"@)
}

/// Sanitize a chat template so that it renders correctly.
pub fn sanitize_template(raw: &str) -> (t: String)
    ensures
        t@ == sanitized(raw@),
{
    proof {
        reveal_strlit("[::-1]");
        reveal_strlit("{{ meta }}");
        reveal_strlit("{%- set meta = message.get(\"metadata\", \"\") %}");
        reveal_strlit("{% set meta = message.get(\"metadata\", \"\") %}");
        reveal_strlit("| tojson | safe");
        reveal_strlit("|tojson|safe");
        reveal_strlit("| safe");
        reveal_strlit("arguments | items");
    }
    let mut t = str_replace(raw, "[::-1]", "|reverse");
    if str_contains(t.as_str(), "{{ meta }}") {
        t = str_replace(t.as_str(), "{%- set meta = message.get(\"metadata\", \"\") %}", "");
        t = str_replace(t.as_str(), "{% set meta = message.get(\"metadata\", \"\") %}", "");
        t = str_replace(t.as_str(), "{{ meta }}", "");
    }
    t = str_replace(t.as_str(), "| tojson | safe", "| tojson");
    t = str_replace(t.as_str(), "|tojson|safe", "| tojson");
    t = str_replace(t.as_str(), "| safe", "");
    t = str_replace(t.as_str(), "arguments | items", "arguments.items()");
    t
}

/// A template holding none of the patched constructs passes through unchanged.
pub proof fn lemma_clean_template_unchanged(raw: Seq<char>)
    requires
        !seq_contains(raw, "[::-1]"@),
        !seq_contains(raw, "{{ meta }}"@),
        !seq_contains(raw, "| tojson | safe"@),
        !seq_contains(raw, "|tojson|safe"@),
        !seq_contains(raw, "| safe"@),
        !seq_contains(raw, "arguments | items"@),
    ensures
        sanitized(raw) == raw,
{
    reveal_strlit("[::-1]");
    reveal_strlit("| tojson | safe");
    reveal_strlit("|tojson|safe");
    reveal_strlit("| safe");
    reveal_strlit("arguments | items");
    lemma_replace_absent(raw, "[::-1]"@, "|reverse"@);
    lemma_replace_absent(raw, "| tojson | safe"@, "| tojson"@);
    lemma_replace_absent(raw, "|tojson|safe"@, "| tojson"@);
    lemma_replace_absent(raw, "| safe"@, ""@);
    lemma_replace_absent(raw, "arguments | items"@, "arguments.items()"@);
}

/// Reverse slices are patched in every template, whatever else it holds: patching them
/// leaves no `[::-1]` behind, and a template is sanitized exactly as it would be if its
/// reverse slices had been turned into `|reverse` beforehand.
pub proof fn lemma_reverse_slices_always_patched(raw: Seq<char>)
    ensures
        !seq_contains(replace_all(raw, "[::-1]"@, "|reverse"@), "[::-1]"@),
        sanitized(replace_all(raw, "[::-1]"@, "|reverse"@)) == sanitized(raw),
{
    reveal_strlit("[::-1]");
    reveal_strlit("|reverse");
    assert(shares_no_char("[::-1]"@, "|reverse"@)) by {
        assert forall|i: int, j: int|
            0 <= i < "[::-1]"@.len() && 0 <= j < "|reverse"@.len() implies "[::-1]"@[i]
            != "|reverse"@[j] by {
            assert(0 <= i < 6 && 0 <= j < 8);
        }
    }
    let patched = replace_all(raw, "[::-1]"@, "|reverse"@);
    lemma_replace_leaves_no_pattern(raw, "[::-1]"@, "|reverse"@);
    lemma_replace_absent(patched, "[::-1]"@, "|reverse"@);
}

} // verus!
