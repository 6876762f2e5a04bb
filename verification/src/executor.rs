use vstd::prelude::*;

use crate::errors::ErrorKind;
use crate::errors::TweakError;
use crate::rate_limit::RateLimiter;
use crate::rate_limit::retained_spec;
use crate::sanitize::double_single_quotes;
use crate::sanitize::sanitize_powershell_input;
use crate::sanitize::security_violating;
use crate::text::chars_of;
use crate::text::contains_sub;
use crate::text::has_prefix;
use crate::text::has_substring;
use crate::text::is_prefix;
use crate::text::join_nl;
use crate::text::lines_spec;
use crate::text::split_lines_from;
use crate::text::string_from_chars;
use crate::text::trim_chars;
use crate::text::trim_spec;
use crate::text::trim_start_spec;
use crate::text::trim_start_chars;

verus! {

// The executor never varies how the shell is started: a fixed
// interpreter, profile-less and non-interactive, a forced UTF-8
// environment, and the validated command text handed through unchanged.
// What it adds is the classification of the outcome: trimmed standard
// output on success, and on failure a message with PowerShell's
// positional diagnostic noise stripped and an access-denied marker
// turned into a distinct category.

/// Everything needed to start the shell: the interpreter, its argument
/// list, and forced environment variables.
pub struct ShellInvocation {
    pub program: String,
    pub args: Vec<String>,
    pub env: Vec<(String, String)>,
}

/// Builds the fixed PowerShell invocation around already-sanitized
/// command text: `powershell -NoProfile -NonInteractive -Command <text>`
/// with a forced UTF-8 environment, the text passed through unmodified.
pub fn build_invocation(command_text: String) -> (inv: ShellInvocation)
    ensures
        inv.program@ == "powershell"@,
        inv.args@.len() == 4,
        inv.args@[0]@ == "-NoProfile"@,
        inv.args@[1]@ == "-NonInteractive"@,
        inv.args@[2]@ == "-Command"@,
        inv.args@[3]@ == command_text@,
        inv.env@.len() == 2,
        inv.env@[0].0@ == "PYTHONIOENCODING"@ && inv.env@[0].1@ == "utf-8"@,
        inv.env@[1].0@ == "LANG"@ && inv.env@[1].1@ == "en_US.UTF-8"@,
{
    let mut args: Vec<String> = Vec::new();
    args.push(String::from_str("-NoProfile"));
    args.push(String::from_str("-NonInteractive"));
    args.push(String::from_str("-Command"));
    args.push(command_text);
    let mut env: Vec<(String, String)> = Vec::new();
    env.push((String::from_str("PYTHONIOENCODING"), String::from_str("utf-8")));
    env.push((String::from_str("LANG"), String::from_str("en_US.UTF-8")));
    ShellInvocation { program: String::from_str("powershell"), args, env }
}

/// Sanitizes command text (unless a trusted internal call site skips
/// that), charges the shared rate limit (unless skipped), and builds the
/// shell invocation. No subprocess is touched here: the caller starts
/// the returned invocation and hands its outcome to `classify_output`.
pub fn prepare_powershell(
    command: &str,
    skip_rate_limit: bool,
    skip_security_check: bool,
    limiter: &mut RateLimiter,
    now: u64,
) -> (r: Result<ShellInvocation, TweakError>)
    requires
        old(limiter).wf(),
    ensures
        final(limiter).wf(),
        ({
            let t = trim_spec(command@);
            let sanitize_ok = !security_violating(t) && t.len() <= 20000;
            let kept = retained_spec(
                old(limiter).entries_spec("powershell_command"@),
                now,
                60,
            );
            let admitted = !old(limiter).enabled || kept.len() < 10;
            &&& (r is Ok <==> ((skip_security_check || sanitize_ok) && (skip_rate_limit
                || admitted)))
            &&& (r matches Ok(inv) ==> inv.args@.len() == 4 && inv.args@[0]@ == "-NoProfile"@
                && inv.args@[1]@ == "-NonInteractive"@ && inv.args@[2]@ == "-Command"@
                && inv.args@[3]@ == (if skip_security_check {
                command@
            } else {
                double_single_quotes(t)
            }) && inv.program@ == "powershell"@ && inv.env@.len() == 2 && inv.env@[0].0@
                == "PYTHONIOENCODING"@ && inv.env@[0].1@ == "utf-8"@ && inv.env@[1].0@ == "LANG"@
                && inv.env@[1].1@ == "en_US.UTF-8"@)
            &&& (!skip_security_check && !sanitize_ok ==> (r matches Err(e) && e.kind == (
            if security_violating(t) {
                ErrorKind::SecurityViolation
            } else {
                ErrorKind::InvalidInput
            }) && final(limiter).windows@ == old(limiter).windows@))
            &&& ((skip_security_check || sanitize_ok) && !skip_rate_limit && !admitted ==> (
            r matches Err(e) && e.kind == ErrorKind::RateLimitExceeded))
            &&& (skip_rate_limit ==> final(limiter).windows@ == old(limiter).windows@)
            &&& (!skip_rate_limit && old(limiter).enabled && r is Ok
                ==> final(limiter).entries_spec("powershell_command"@) == kept.push(now))
        }),
{
    let sanitized: String = if skip_security_check {
        command.to_owned()
    } else {
        match sanitize_powershell_input(command) {
            Ok(s) => s,
            Err(e) => {
                return Err(e);
            },
        }
    };
    if !skip_rate_limit {
        match limiter.check_rate_limit("powershell_command", 10, 60, now) {
            Ok(()) => {},
            Err(e) => {
                return Err(e);
            },
        }
    }
    Ok(build_invocation(sanitized))
}

/// Whether a diagnostic line survives noise stripping: PowerShell's
/// positional lines (`At line:`, `+`) and its category/id trailers are
/// dropped.
pub open spec fn keep_line(l: Seq<char>) -> bool {
    let t = trim_start_spec(l);
    &&& !is_prefix(t, "At line:"@)
    &&& !is_prefix(t, "+"@)
    &&& !is_prefix(t, "CategoryInfo"@)
    &&& !is_prefix(t, "FullyQualifiedErrorId"@)
}

/// The lines that survive noise stripping, in order.
pub open spec fn kept_lines(ls: Seq<Seq<char>>) -> Seq<Seq<char>>
    decreases ls.len(),
{
    if ls.len() == 0 {
        Seq::empty()
    } else {
        let init = kept_lines(ls.drop_last());
        if keep_line(ls.last()) {
            init.push(ls.last())
        } else {
            init
        }
    }
}

/// The failure message derived from raw interpreter output: the
/// surviving lines rejoined and trimmed, or the whole untrimmed output
/// when stripping leaves nothing.
pub open spec fn cleaned_message(raw: Seq<char>) -> Seq<char> {
    let cleaned = trim_spec(join_nl(kept_lines(lines_spec(raw))));
    if cleaned.len() == 0 {
        raw
    } else {
        cleaned
    }
}

/// The raw text a failure message is derived from: standard error if it
/// has any non-blank content, else standard output.
pub open spec fn raw_error_choice(stdout: Seq<char>, stderr: Seq<char>) -> Seq<char> {
    if trim_spec(stderr).len() == 0 {
        stdout
    } else {
        stderr
    }
}

/// The failure is a permission problem when the cleaned message carries
/// an access-denied marker.
pub open spec fn is_permission_denied(msg: Seq<char>) -> bool {
    has_substring(msg, "Access is denied"@) || has_substring(msg, "UnauthorizedAccessException"@)
}

fn line_survives(l: &Vec<char>) -> (r: bool)
    ensures
        r == keep_line(l@),
{
    let t = trim_start_chars(l);
    !(has_prefix(&t, "At line:") || has_prefix(&t, "+") || has_prefix(&t, "CategoryInfo")
        || has_prefix(&t, "FullyQualifiedErrorId"))
}

/// Strips diagnostic noise from raw failure output: drops the lines that
/// `keep_line` refuses and joins the rest with newlines.
fn strip_noise(raw: &Vec<char>) -> (out: Vec<char>)
    ensures
        out@ == join_nl(kept_lines(lines_spec(raw@))),
{
    let lines = split_lines_from(raw, 0);
    let ghost lspec = lines_spec(raw@.subrange(0, raw@.len() as int));
    proof {
        assert(raw@.subrange(0, raw@.len() as int) =~= raw@);
    }
    let mut out: Vec<char> = Vec::new();
    let ghost mut kseq = Seq::<Seq<char>>::empty();
    let mut some_kept = false;
    let mut i: usize = 0;
    while i < lines.len()
        invariant
            i <= lines@.len(),
            lines@.len() == lspec.len(),
            forall|m: int| 0 <= m < lines@.len() ==> (#[trigger] lines@[m])@ == lspec[m],
            kseq == kept_lines(lspec.subrange(0, i as int)),
            some_kept == (kseq.len() > 0),
            out@ == join_nl(kseq),
        decreases lines@.len() - i,
    {
        proof {
            let pre = lspec.subrange(0, i as int + 1);
            assert(pre.drop_last() =~= lspec.subrange(0, i as int));
            assert(pre.last() == lspec[i as int]);
        }
        let line = &lines[i];
        if line_survives(line) {
            if some_kept {
                out.push('\n');
            }
            let mut j: usize = 0;
            let ghost out_start = out@;
            while j < line.len()
                invariant
                    j <= line@.len(),
                    out@ == out_start + line@.subrange(0, j as int),
                decreases line@.len() - j,
            {
                out.push(line[j]);
                proof {
                    assert(line@.subrange(0, j as int + 1) =~= line@.subrange(0, j as int).push(
                        line@[j as int],
                    ));
                }
                j = j + 1;
            }
            proof {
                assert(line@.subrange(0, line@.len() as int) =~= line@);
                let knew = kseq.push(lspec[i as int]);
                assert(knew.drop_last() =~= kseq);
                if kseq.len() == 0 {
                    assert(out@ =~= join_nl(knew));
                } else {
                    assert(out@ =~= join_nl(kseq) + seq!['\n'] + lspec[i as int]);
                    assert(out@ =~= join_nl(knew));
                }
            }
            proof {
                kseq = kseq.push(lspec[i as int]);
            }
            some_kept = true;
        }
        i = i + 1;
    }
    proof {
        assert(lspec.subrange(0, lspec.len() as int) =~= lspec);
    }
    out
}

/// Classifies one finished interpreter run.
///
/// Exit code 0 yields the trimmed standard output. A nonzero exit yields
/// an error built from standard error (or standard output when standard
/// error is blank), with PowerShell's positional diagnostic lines
/// stripped; the whole untrimmed text stands in when stripping leaves
/// nothing. A message carrying an access-denied marker is classified as
/// `PermissionDenied`, every other failure as `Generic`, and the message
/// is carried verbatim (with a fixed prefix in the permission case).
pub fn classify_output(exit_success: bool, stdout: &str, stderr: &str) -> (r: Result<
    String,
    TweakError,
>)
    ensures
        exit_success ==> (r matches Ok(out) && out@ == trim_spec(stdout@)),
        !exit_success ==> (r matches Err(e) && ({
            let msg = cleaned_message(raw_error_choice(stdout@, stderr@));
            &&& (is_permission_denied(msg) ==> e.kind == ErrorKind::PermissionDenied
                && e.message@ == "Administrator privileges are required: "@ + msg)
            &&& (!is_permission_denied(msg) ==> e.kind == ErrorKind::Generic && e.message@ == msg)
        })),
{
    let out_chars = chars_of(stdout);
    if exit_success {
        let trimmed = trim_chars(&out_chars);
        return Ok(string_from_chars(&trimmed));
    }
    let err_chars = chars_of(stderr);
    let err_trimmed = trim_chars(&err_chars);
    let raw = if err_trimmed.len() == 0 {
        out_chars
    } else {
        err_chars
    };
    let stripped = strip_noise(&raw);
    let cleaned = trim_chars(&stripped);
    let msg = if cleaned.len() == 0 {
        raw
    } else {
        cleaned
    };
    if contains_sub(&msg, "Access is denied") || contains_sub(&msg, "UnauthorizedAccessException") {
        let mut full = chars_of("Administrator privileges are required: ");
        let ghost prefix = full@;
        let mut j: usize = 0;
        while j < msg.len()
            invariant
                j <= msg@.len(),
                full@ == prefix + msg@.subrange(0, j as int),
            decreases msg@.len() - j,
        {
            full.push(msg[j]);
            proof {
                assert(msg@.subrange(0, j as int + 1) =~= msg@.subrange(0, j as int).push(
                    msg@[j as int],
                ));
            }
            j = j + 1;
        }
        proof {
            assert(msg@.subrange(0, msg@.len() as int) =~= msg@);
        }
        Err(TweakError::new(ErrorKind::PermissionDenied, string_from_chars(&full)))
    } else {
        Err(TweakError::new(ErrorKind::Generic, string_from_chars(&msg)))
    }
}

} // verus!
