use vstd::prelude::*;

use crate::text::chars_of;
use crate::text::has_prefix;
use crate::text::is_prefix;
use crate::text::string_from_chars;
use crate::text::trim_chars;
use crate::text::trim_spec;

verus! {

/// Whether the text is a well-formed JSON document. What that takes is
/// the JSON grammar, which the parser owns; it depends on the text
/// alone.
pub uninterp spec fn is_json_text(s: Seq<char>) -> bool;

/// Relies on serde_json::from_str::<serde_json::Value>: whether the text
/// parses as a JSON document depends on the text alone.
#[verifier::external_body]
fn json_parses(s: &str) -> (r: bool)
    ensures
        r == is_json_text(s@),
{
    serde_json::from_str::<serde_json::Value>(s).is_ok()
}

/// The predictable shape a caller gets for nominally-JSON command
/// output: blank or literal-`null` output becomes the empty-array
/// sentinel; well-formed JSON passes through unchanged; malformed text
/// opening with `[` (or `{` where object output is expected) passes
/// through as a best effort; everything else becomes the sentinel.
pub open spec fn normalize_spec(s: Seq<char>, accept_object: bool) -> Seq<char> {
    let t = trim_spec(s);
    if t.len() == 0 || t == "null"@ {
        "[]"@
    } else if is_json_text(s) {
        s
    } else if t[0] == '[' || (accept_object && t[0] == '{') {
        s
    } else {
        "[]"@
    }
}

/// Normalizes command output that should be JSON, degrading gracefully
/// to the `"[]"` sentinel instead of propagating a parse error.
pub fn normalize_command_output(output: &str, accept_object: bool) -> (r: String)
    ensures
        r@ == normalize_spec(output@, accept_object),
{
    proof {
        reveal_strlit("null");
        reveal_strlit("[]");
    }
    let v = chars_of(output);
    let t = trim_chars(&v);
    let is_null_literal = t.len() == 4 && has_prefix(&t, "null");
    proof {
        assert("null"@.len() == 4);
        if t@.len() == 4 {
            assert(t@.subrange(0, 4) =~= t@);
        }
        assert(is_null_literal == (t@ == "null"@));
    }
    if t.len() == 0 || is_null_literal {
        return String::from_str("[]");
    }
    if json_parses(output) {
        return output.to_owned();
    }
    let first = t[0];
    if first == '[' || (accept_object && first == '{') {
        return output.to_owned();
    }
    String::from_str("[]")
}

/// Law: well-formed JSON output that is not blank and not the literal
/// `null` is always passed through unchanged, whichever opening
/// characters are accepted for malformed text.
pub proof fn lemma_valid_json_passes_through(s: Seq<char>, accept_object: bool)
    requires
        is_json_text(s),
        trim_spec(s).len() > 0,
        trim_spec(s) != "null"@,
    ensures
        normalize_spec(s, accept_object) == s,
{
}

} // verus!
