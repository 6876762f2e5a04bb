use vstd::prelude::*;

use crate::errors::ErrorKind;
use crate::errors::TweakError;
use crate::text::chars_of;
use crate::text::contains_char;
use crate::text::string_from_chars;
use crate::text::trim_chars;
use crate::text::trim_spec;

verus! {

// The scanner walks the command text left to right and keeps three pieces
// of state: whether an unescaped single quote is open, whether an unescaped
// double quote is open, and how many `$(` groups are open. A command
// separator found while any of these is active is legitimate nested
// PowerShell syntax; one found while the state is clear is command
// chaining and is refused.

/// One scanner transition: the state after reading `s[j]`, given the state
/// `st` before it (open single quote, open double quote, `$(` depth).
pub open spec fn scan_step(st: (bool, bool, int), s: Seq<char>, j: int) -> (bool, bool, int) {
    let c = s[j];
    if c == '\'' && (j == 0 || s[j - 1] != '\\') {
        (!st.0, st.1, st.2)
    } else if c == '"' && (j == 0 || s[j - 1] != '\\') {
        (st.0, !st.1, st.2)
    } else if c == '$' && j + 1 < s.len() && s[j + 1] == '(' {
        (st.0, st.1, st.2 + 1)
    } else if c == ')' && st.2 > 0 {
        (st.0, st.1, st.2 - 1)
    } else {
        st
    }
}

/// The scanner state before position `i` of `s`.
pub open spec fn scan_state_at(s: Seq<char>, i: int) -> (bool, bool, int)
    decreases i,
{
    if i <= 0 {
        (false, false, 0)
    } else {
        scan_step(scan_state_at(s, i - 1), s, i - 1)
    }
}

/// Position `i` of `s` lies outside every quoted and `$( )` region.
pub open spec fn clear_at(s: Seq<char>, i: int) -> bool {
    let st = scan_state_at(s, i);
    !st.0 && !st.1 && st.2 == 0
}

/// The two-character separator `a`,`b` occurs in `s` at a position the
/// scanner considers outside every quoted and `$( )` region.
pub open spec fn sep_flagged(s: Seq<char>, a: char, b: char) -> bool {
    exists|i: int|
        0 <= i && i + 1 < s.len() && clear_at(s, i) && #[trigger] s[i] == a && s[i + 1] == b
}

/// An `&` occurs in `s` at a position the scanner considers outside
/// every quoted and `$( )` region; `&&` chains are a special case of
/// this.
pub open spec fn bare_amp_flagged(s: Seq<char>) -> bool {
    exists|i: int| 0 <= i < s.len() && clear_at(s, i) && #[trigger] s[i] == '&'
}

/// The (already trimmed) command text contains something that must never
/// reach a shell: a backtick, an `&` (alone or doubled) or a `||`
/// outside every quoted and `$( )` region, or a redirection character.
pub open spec fn security_violating(s: Seq<char>) -> bool {
    ||| s.contains('`')
    ||| bare_amp_flagged(s)
    ||| sep_flagged(s, '|', '|')
    ||| s.contains('<')
    ||| s.contains('>')
}

/// How one character appears after quote doubling: a single quote becomes
/// two, every other character stays itself.
pub open spec fn quote_rep(c: char) -> Seq<char> {
    if c == '\'' {
        seq!['\'', '\'']
    } else {
        seq![c]
    }
}

/// `s` with every single quote doubled and every other character kept,
/// in order: safe to splice into a PowerShell single-quoted literal.
pub open spec fn double_single_quotes(s: Seq<char>) -> Seq<char>
    decreases s.len(),
{
    if s.len() == 0 {
        Seq::empty()
    } else {
        double_single_quotes(s.drop_last()) + quote_rep(s.last())
    }
}

/// Looks for the separator `a`,`b` outside every quoted and `$( )` region.
fn scan_for_separator(t: &Vec<char>, a: char, b: char) -> (found: bool)
    requires
        a != '\'' && a != '"' && a != '$' && a != ')',
    ensures
        found == sep_flagged(t@, a, b),
{
    let n = t.len();
    let mut in_single = false;
    let mut in_double = false;
    let mut depth: usize = 0;
    let mut i: usize = 0;
    while i < n
        invariant
            i <= n,
            n == t@.len(),
            depth <= i,
            a != '\'' && a != '"' && a != '$' && a != ')',
            in_single == scan_state_at(t@, i as int).0,
            in_double == scan_state_at(t@, i as int).1,
            depth as int == scan_state_at(t@, i as int).2,
            forall|j: int|
                0 <= j < i ==> !(clear_at(t@, j) && j + 1 < t@.len() && #[trigger] t@[j] == a
                    && t@[j + 1] == b),
        decreases n - i,
    {
        let c = t[i];
        let prev_escaped = i > 0 && t[i - 1] == '\\';
        if c == '\'' && !prev_escaped {
            in_single = !in_single;
        } else if c == '"' && !prev_escaped {
            in_double = !in_double;
        } else if c == '$' && i + 1 < n && t[i + 1] == '(' {
            depth = depth + 1;
        } else if c == ')' && depth > 0 {
            depth = depth - 1;
        } else if !in_single && !in_double && depth == 0 {
            if c == a && i + 1 < n && t[i + 1] == b {
                assert(clear_at(t@, i as int));
                assert(sep_flagged(t@, a, b));
                return true;
            }
        }
        proof {
            assert(scan_state_at(t@, i as int + 1) == scan_step(
                scan_state_at(t@, i as int),
                t@,
                i as int,
            ));
            assert forall|j: int|
                0 <= j < i as int + 1 implies !(clear_at(t@, j) && j + 1 < t@.len()
                && #[trigger] t@[j] == a && t@[j + 1] == b) by {
                if j == i as int {
                    assert(t@[j] == c);
                }
            }
        }
        i = i + 1;
    }
    false
}

/// Looks for `a` at any position outside every quoted and `$( )`
/// region.
fn scan_for_clear_char(t: &Vec<char>, a: char) -> (found: bool)
    requires
        a != '\'' && a != '"' && a != '$' && a != ')',
    ensures
        found == (exists|i: int| 0 <= i < t@.len() && clear_at(t@, i) && #[trigger] t@[i] == a),
{
    let n = t.len();
    let mut in_single = false;
    let mut in_double = false;
    let mut depth: usize = 0;
    let mut i: usize = 0;
    while i < n
        invariant
            i <= n,
            n == t@.len(),
            depth <= i,
            a != '\'' && a != '"' && a != '$' && a != ')',
            in_single == scan_state_at(t@, i as int).0,
            in_double == scan_state_at(t@, i as int).1,
            depth as int == scan_state_at(t@, i as int).2,
            forall|j: int| 0 <= j < i ==> !(clear_at(t@, j) && #[trigger] t@[j] == a),
        decreases n - i,
    {
        let c = t[i];
        let prev_escaped = i > 0 && t[i - 1] == '\\';
        if c == '\'' && !prev_escaped {
            in_single = !in_single;
        } else if c == '"' && !prev_escaped {
            in_double = !in_double;
        } else if c == '$' && i + 1 < n && t[i + 1] == '(' {
            depth = depth + 1;
        } else if c == ')' && depth > 0 {
            depth = depth - 1;
        } else if !in_single && !in_double && depth == 0 {
            if c == a {
                assert(clear_at(t@, i as int));
                return true;
            }
        }
        proof {
            assert(scan_state_at(t@, i as int + 1) == scan_step(
                scan_state_at(t@, i as int),
                t@,
                i as int,
            ));
            assert forall|j: int|
                0 <= j < i as int + 1 implies !(clear_at(t@, j) && #[trigger] t@[j] == a) by {
                if j == i as int {
                    assert(t@[j] == c);
                }
            }
        }
        i = i + 1;
    }
    false
}

/// Decides whether the trimmed command text holds anything the policy
/// refuses outright: a backtick, an `&` or a `||` outside every quoted
/// and `$( )` region, or a redirection character.
fn check_violations(t: &Vec<char>) -> (v: bool)
    ensures
        v == security_violating(t@),
{
    if contains_char(t, '`') {
        return true;
    }
    if scan_for_clear_char(t, '&') {
        return true;
    }
    if scan_for_separator(t, '|', '|') {
        return true;
    }
    if contains_char(t, '<') {
        return true;
    }
    if contains_char(t, '>') {
        return true;
    }
    false
}

/// The characters of `t` with every single quote doubled.
fn double_quotes_chars(t: &Vec<char>) -> (out: Vec<char>)
    ensures
        out@ == double_single_quotes(t@),
{
    let mut out: Vec<char> = Vec::new();
    let mut i: usize = 0;
    while i < t.len()
        invariant
            i <= t@.len(),
            out@ == double_single_quotes(t@.subrange(0, i as int)),
        decreases t@.len() - i,
    {
        let c = t[i];
        if c == '\'' {
            out.push('\'');
            out.push('\'');
        } else {
            out.push(c);
        }
        proof {
            let pre = t@.subrange(0, i as int + 1);
            assert(pre.drop_last() =~= t@.subrange(0, i as int));
            assert(pre.last() == t@[i as int]);
            assert(out@ =~= double_single_quotes(pre.drop_last()) + quote_rep(pre.last()));
        }
        i = i + 1;
    }
    proof {
        assert(t@.subrange(0, t@.len() as int) =~= t@);
    }
    out
}

/// Rejects command text that could chain or redirect shell commands, then
/// doubles every single quote so the rest can sit inside a PowerShell
/// single-quoted literal.
///
/// The input is trimmed first. A backtick, an `&` (alone or as `&&`) or
/// a `||` outside every quoted and `$( )` region, or a `<`/`>` anywhere
/// is refused as a security violation; text longer than 20000 characters
/// is refused as invalid input. On success the result is exactly the
/// trimmed text with each single quote doubled.
pub fn sanitize_powershell_input(input: &str) -> (r: Result<String, TweakError>)
    ensures
        ({
            let t = trim_spec(input@);
            &&& (r is Ok <==> (!security_violating(t) && t.len() <= 20000))
            &&& (r matches Ok(out) ==> out@ == double_single_quotes(t))
            &&& (r matches Err(e) ==> e.kind == (if security_violating(t) {
                ErrorKind::SecurityViolation
            } else {
                ErrorKind::InvalidInput
            }))
        }),
{
    let raw = chars_of(input);
    let t = trim_chars(&raw);
    if check_violations(&t) {
        return Err(TweakError::new(
            ErrorKind::SecurityViolation,
            String::from_str("Dangerous character or separator in command text"),
        ));
    }
    if t.len() > 20000 {
        return Err(TweakError::new(
            ErrorKind::InvalidInput,
            String::from_str("Command text is too long (at most 20000 characters)"),
        ));
    }
    let out = double_quotes_chars(&t);
    Ok(string_from_chars(&out))
}

/// Law: any trimmed command text holding an `&&`, a `||` or a bare `&`
/// outside every quoted and `$( )` region is a security violation, so
/// `sanitize_powershell_input` refuses it with
/// `ErrorKind::SecurityViolation` by its contract.
pub proof fn lemma_unquoted_separator_refused(t: Seq<char>)
    requires
        sep_flagged(t, '&', '&') || sep_flagged(t, '|', '|') || bare_amp_flagged(t),
    ensures
        security_violating(t),
{
    if sep_flagged(t, '&', '&') {
        let i = choose|i: int|
            0 <= i && i + 1 < t.len() && clear_at(t, i) && #[trigger] t[i] == '&' && t[i + 1]
                == '&';
        assert(clear_at(t, i) && t[i] == '&');
        assert(bare_amp_flagged(t));
    }
}

/// A character that never changes the scanner state: not a quote, not the
/// `$` that could open a `$(` group, and not the `)` that could close one.
pub open spec fn inert_char(c: char) -> bool {
    c != '\'' && c != '"' && c != '$' && c != ')'
}

/// A character that is inert and is also no separator and nothing the
/// policy refuses on sight.
pub open spec fn plain_char(c: char) -> bool {
    inert_char(c) && c != '&' && c != '|' && c != '`' && c != '<' && c != '>'
}

proof fn lemma_scan_inert(s: Seq<char>, lo: int, k: int)
    requires
        0 <= lo <= k <= s.len(),
        forall|j: int| lo <= j < k ==> inert_char(#[trigger] s[j]),
    ensures
        scan_state_at(s, k) == scan_state_at(s, lo),
    decreases k - lo,
{
    if k > lo {
        lemma_scan_inert(s, lo, k - 1);
        assert(scan_state_at(s, k) == scan_step(scan_state_at(s, k - 1), s, k - 1));
    }
}

/// A character of the text around the group that changes no scanner
/// state, is no separator, is nothing the policy refuses on sight, and
/// cannot escape a following quote.
pub open spec fn context_char(c: char) -> bool {
    plain_char(c) && c != '\\'
}

/// A character safe inside a quoted span: it neither closes the span
/// nor changes the scanner state, and is nothing the policy refuses on
/// sight.
pub open spec fn quoted_inner_char(c: char) -> bool {
    inert_char(c) && c != '\\' && c != '`' && c != '<' && c != '>'
}

/// Text correctly quoted for the scanner: plain characters and complete
/// single- or double-quoted spans, in any arrangement; the spans may
/// hold `&` and `|`.
pub open spec fn quoted_context(s: Seq<char>) -> bool
    decreases s.len(),
{
    if s.len() == 0 {
        true
    } else if context_char(s[0]) {
        quoted_context(s.drop_first())
    } else if s[0] == '\'' || s[0] == '"' {
        exists|j: int|
            1 <= j < s.len() && #[trigger] s[j] == s[0] && (forall|k: int|
                1 <= k < j ==> quoted_inner_char(#[trigger] s[k])) && quoted_context(
                s.subrange(j + 1, s.len() as int),
            )
    } else {
        false
    }
}

proof fn lemma_quoted_context_scan(t: Seq<char>, b: int, e: int)
    requires
        0 <= b <= e <= t.len(),
        scan_state_at(t, b) == (false, false, 0int),
        b == 0 || t[b - 1] != '\\',
        quoted_context(t.subrange(b, e)),
    ensures
        scan_state_at(t, e) == (false, false, 0int),
        forall|k: int|
            b <= k < e && clear_at(t, k) ==> context_char(#[trigger] t[k]) || t[k] == '\''
                || t[k] == '"',
        forall|k: int| b <= k < e ==> #[trigger] t[k] != '`' && t[k] != '<' && t[k] != '>',
    decreases e - b,
{
    if b < e {
        let s = t.subrange(b, e);
        assert(s[0] == t[b]);
        if context_char(t[b]) {
            assert(scan_state_at(t, b + 1) == scan_step(scan_state_at(t, b), t, b));
            assert(scan_state_at(t, b + 1) == (false, false, 0int));
            assert(s.drop_first() =~= t.subrange(b + 1, e));
            lemma_quoted_context_scan(t, b + 1, e);
        } else {
            assert(t[b] == '\'' || t[b] == '"');
            let j = choose|j: int|
                1 <= j < s.len() && #[trigger] s[j] == s[0] && (forall|k: int|
                    1 <= k < j ==> quoted_inner_char(#[trigger] s[k])) && quoted_context(
                    s.subrange(j + 1, s.len() as int),
                );
            let cj = b + j;
            assert(t[cj] == t[b]);
            assert forall|k: int| b + 1 <= k < cj implies quoted_inner_char(#[trigger] t[k]) by {
                assert(t[k] == s[k - b]);
            }
            assert(scan_state_at(t, b + 1) == scan_step(scan_state_at(t, b), t, b));
            let inside = scan_state_at(t, b + 1);
            assert(inside == (if t[b] == '\'' {
                (true, false, 0int)
            } else {
                (false, true, 0int)
            }));
            assert forall|k: int| b + 1 <= k <= cj implies scan_state_at(t, k) == inside by {
                lemma_scan_inert(t, b + 1, k);
            }
            assert(t[cj - 1] != '\\');
            assert(scan_state_at(t, cj + 1) == scan_step(scan_state_at(t, cj), t, cj));
            assert(scan_state_at(t, cj + 1) == (false, false, 0int));
            assert(s.subrange(j + 1, s.len() as int) =~= t.subrange(cj + 1, e));
            lemma_quoted_context_scan(t, cj + 1, e);
        }
    } else {
        assert(t.subrange(b, e).len() == 0);
    }
}

/// Law: a command text whose surroundings are correctly quoted — plain
/// characters and complete single- or double-quoted spans — around one balanced
/// `$( ... )` group is never a security violation, even when the group
/// or the quoted spans hold `&&`, `||` or `&`: the scanner sees the
/// group's interior at a positive depth and the spans' interiors inside
/// a quote, and flags nothing there. With `sanitize_powershell_input`'s
/// contract, such a text is sanitized successfully whenever it is
/// within the length bound.
pub proof fn lemma_quoted_subexpression_accepted(pre: Seq<char>, mid: Seq<char>, post: Seq<char>)
    requires
        quoted_context(pre),
        forall|j: int|
            0 <= j < mid.len() ==> inert_char(#[trigger] mid[j]) && mid[j] != '`' && mid[j] != '<'
                && mid[j] != '>',
        quoted_context(post),
    ensures
        !security_violating(pre + seq!['$', '('] + mid + seq![')'] + post),
{
    let t = pre + seq!['$', '('] + mid + seq![')'] + post;
    let p = pre.len() as int;
    let q = p + 2 + mid.len() as int;
    assert(t.len() == q + 1 + post.len());
    assert forall|i: int| 0 <= i < t.len() implies t[i] == (if i < p {
        pre[i]
    } else if i == p {
        '$'
    } else if i == p + 1 {
        '('
    } else if i < q {
        mid[i - p - 2]
    } else if i == q {
        ')'
    } else {
        post[i - q - 1]
    }) by {
    }
    // The state is clear up to the `$` (inside the quoted spans of the
    // surroundings it is in-quote), sits at depth one inside the group,
    // and is clear again after the `)`.
    assert(t.subrange(0, p) =~= pre);
    lemma_quoted_context_scan(t, 0, p);
    assert(scan_state_at(t, p + 1) == scan_step(scan_state_at(t, p), t, p));
    assert(scan_state_at(t, p + 1) == (false, false, 1int));
    assert(scan_state_at(t, p + 2) == scan_step(scan_state_at(t, p + 1), t, p + 1));
    assert(scan_state_at(t, p + 2) == (false, false, 1int));
    assert forall|k: int| p + 2 <= k <= q implies scan_state_at(t, k) == (false, false, 1int) by {
        lemma_scan_inert(t, p + 2, k);
    }
    assert(scan_state_at(t, q + 1) == scan_step(scan_state_at(t, q), t, q));
    assert(scan_state_at(t, q + 1) == (false, false, 0int));
    assert(t.subrange(q + 1, t.len() as int) =~= post);
    lemma_quoted_context_scan(t, q + 1, t.len() as int);
    assert(!sep_flagged(t, '|', '|'));
    assert forall|i: int| 0 <= i < t.len() && clear_at(t, i) implies t[i] != '&' by {
    }
    assert(!bare_amp_flagged(t));
    assert(!t.contains('`'));
    assert(!t.contains('<'));
    assert(!t.contains('>'));
}

} // verus!
