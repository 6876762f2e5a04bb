use vstd::prelude::*;

use crate::errors::ErrorKind;
use crate::errors::TweakError;
use crate::text::chars_of;
use crate::text::string_from_chars;
use crate::text::trim_chars;
use crate::text::trim_spec;

verus! {

// One raw token yields an ordered list of Authorization header
// candidates; the identity endpoint is asked about each in turn. A 401
// or 403 moves on to the next candidate; any other failure is terminal;
// the first success wins. The network call itself lives with the
// caller: this module owns the candidate order and the verdict.

/// What one identity lookup came back with, reduced to plain values.
pub enum AuthOutcome {
    /// The endpoint accepted the candidate; the resolved user id, when
    /// the payload carried a non-empty one.
    Success { user_id: Option<String> },
    /// HTTP 401 or 403: this candidate is wrong, the next may do.
    Unauthorized,
    /// Any other HTTP status: terminal.
    HttpFailure { status: u16, body: String },
    /// The request timed out: terminal.
    Timeout,
    /// No connection could be made: terminal.
    ConnectFailure,
    /// Any other transport failure: terminal.
    RequestFailure { message: String },
}

/// The trimmed token opens with a case-insensitive `Bot ` prefix.
pub open spec fn has_bot_prefix(t: Seq<char>) -> bool {
    &&& t.len() >= 4
    &&& (t[0] == 'b' || t[0] == 'B')
    &&& (t[1] == 'o' || t[1] == 'O')
    &&& (t[2] == 't' || t[2] == 'T')
    &&& t[3] == ' '
}

/// The Authorization header values to try, in order: a token already
/// carrying a `Bot ` prefix is tried normalized first and bare second;
/// a bare token is tried as given first and `Bot `-prefixed second.
pub open spec fn candidates_spec(raw: Seq<char>) -> Seq<Seq<char>> {
    let t = trim_spec(raw);
    if has_bot_prefix(t) {
        let rest = trim_spec(t.subrange(4, t.len() as int));
        if rest.len() > 0 {
            seq!["Bot "@ + rest, rest]
        } else {
            seq!["Bot "@ + rest]
        }
    } else {
        seq![t, "Bot "@ + t]
    }
}

fn prepend_bot(rest: &Vec<char>) -> (out: Vec<char>)
    ensures
        out@ == "Bot "@ + rest@,
{
    let mut out = chars_of("Bot ");
    let ghost prefix = out@;
    let mut j: usize = 0;
    while j < rest.len()
        invariant
            j <= rest@.len(),
            out@ == prefix + rest@.subrange(0, j as int),
        decreases rest@.len() - j,
    {
        out.push(rest[j]);
        proof {
            assert(rest@.subrange(0, j as int + 1) =~= rest@.subrange(0, j as int).push(
                rest@[j as int],
            ));
        }
        j = j + 1;
    }
    proof {
        assert(rest@.subrange(0, rest@.len() as int) =~= rest@);
    }
    out
}

/// The ordered Authorization header candidates derived from one raw
/// token.
pub fn auth_candidates(token: &str) -> (c: Vec<String>)
    ensures
        c@.len() == candidates_spec(token@).len(),
        forall|i: int|
            0 <= i < c@.len() ==> (#[trigger] c@[i])@ == candidates_spec(token@)[i],
{
    let raw = chars_of(token);
    let t = trim_chars(&raw);
    let prefixed = t.len() >= 4 && (t[0] == 'b' || t[0] == 'B') && (t[1] == 'o' || t[1] == 'O') && (
    t[2] == 't' || t[2] == 'T') && t[3] == ' ';
    let mut out: Vec<String> = Vec::new();
    if prefixed {
        let mut tail: Vec<char> = Vec::new();
        let mut j: usize = 4;
        while j < t.len()
            invariant
                4 <= j <= t@.len(),
                tail@ == t@.subrange(4, j as int),
            decreases t@.len() - j,
        {
            tail.push(t[j]);
            proof {
                assert(t@.subrange(4, j as int + 1) =~= t@.subrange(4, j as int).push(
                    t@[j as int],
                ));
            }
            j = j + 1;
        }
        proof {
            assert(tail@ =~= t@.subrange(4, t@.len() as int));
        }
        let rest = trim_chars(&tail);
        let with_prefix = prepend_bot(&rest);
        out.push(string_from_chars(&with_prefix));
        if rest.len() > 0 {
            out.push(string_from_chars(&rest));
        }
    } else {
        let with_prefix = prepend_bot(&t);
        out.push(string_from_chars(&t));
        out.push(string_from_chars(&with_prefix));
    }
    out
}

/// The index of the first outcome that is not a 401/403 rejection, or
/// `n` when the first `n` outcomes all are.
pub open spec fn first_decisive(outs: Seq<AuthOutcome>, n: int, i: int) -> int
    decreases n - i,
{
    if i < 0 || i >= n {
        n
    } else if !(outs[i] is Unauthorized) {
        i
    } else {
        first_decisive(outs, n, i + 1)
    }
}

/// Whether this outcome lets the resolver move on to the next candidate.
pub fn outcome_tries_next(outcome: &AuthOutcome) -> (r: bool)
    ensures
        r == (outcome is Unauthorized),
{
    match outcome {
        AuthOutcome::Unauthorized => true,
        _ => false,
    }
}

/// Resolves a working Authorization header from one raw token, given
/// the outcome of the identity lookup for each candidate in order
/// (later outcomes are ignored once one is decisive).
///
/// The first candidate whose lookup succeeded is returned with the
/// resolved user id; a terminal failure on any earlier candidate is
/// reported as `Generic`; if every candidate was rejected with 401/403,
/// the resolution fails with `AuthExhausted`.
pub fn resolve_discord_auth(token: &str, outcomes: &Vec<AuthOutcome>) -> (r: Result<
    (String, Option<String>),
    TweakError,
>)
    requires
        outcomes@.len() >= candidates_spec(token@).len(),
    ensures
        ({
            let cands = candidates_spec(token@);
            let j = first_decisive(outcomes@, cands.len() as int, 0);
            &&& (j == cands.len() ==> (r matches Err(e) && e.kind == ErrorKind::AuthExhausted))
            &&& (j < cands.len() ==> match outcomes@[j] {
                AuthOutcome::Success { user_id } => r matches Ok(p) && p.0@ == cands[j] && p.1
                    == user_id,
                AuthOutcome::Unauthorized => false,
                _ => r matches Err(e) && e.kind == ErrorKind::Generic,
            })
        }),
{
    let candidates = auth_candidates(token);
    let ghost cands = candidates_spec(token@);
    let n = candidates.len();
    let mut i: usize = 0;
    while i < n
        invariant
            i <= n,
            cands == candidates_spec(token@),
            n == cands.len(),
            outcomes@.len() >= cands.len(),
            candidates@.len() == cands.len(),
            forall|m: int| 0 <= m < cands.len() ==> (#[trigger] candidates@[m])@ == cands[m],
            first_decisive(outcomes@, n as int, 0) == first_decisive(outcomes@, n as int, i as int),
            forall|m: int| 0 <= m < i ==> outcomes@[m] is Unauthorized,
        decreases n - i,
    {
        proof {
            assert(first_decisive(outcomes@, n as int, i as int) == (if outcomes@[i as int]
                is Unauthorized {
                first_decisive(outcomes@, n as int, i as int + 1)
            } else {
                i as int
            }));
        }
        match &outcomes[i] {
            AuthOutcome::Success { user_id } => {
                let resolved = match user_id {
                    Some(s) => Some(s.clone()),
                    None => None,
                };
                return Ok((candidates[i].clone(), resolved));
            },
            AuthOutcome::Unauthorized => {},
            AuthOutcome::HttpFailure { status, body } => {
                let _ = status;
                let _ = body;
                return Err(TweakError::new(
                    ErrorKind::Generic,
                    String::from_str("The identity lookup failed with an unexpected status"),
                ));
            },
            AuthOutcome::Timeout => {
                return Err(TweakError::new(
                    ErrorKind::Generic,
                    String::from_str("The identity endpoint did not answer in time"),
                ));
            },
            AuthOutcome::ConnectFailure => {
                return Err(TweakError::new(
                    ErrorKind::Generic,
                    String::from_str("No connection to the identity endpoint could be made"),
                ));
            },
            AuthOutcome::RequestFailure { message } => {
                let _ = message;
                return Err(TweakError::new(
                    ErrorKind::Generic,
                    String::from_str("The identity request failed"),
                ));
            },
        }
        i = i + 1;
    }
    proof {
        assert(first_decisive(outcomes@, n as int, n as int) == n as int);
    }
    Err(TweakError::new(
        ErrorKind::AuthExhausted,
        String::from_str("No usable credential: every candidate was rejected"),
    ))
}

} // verus!
