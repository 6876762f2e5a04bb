use vstd::prelude::*;
use vstd::string::StrSliceExecFns;
use vstd::string::StringExecFns;

verus! {

/// The Unicode `White_Space` code points: exactly what
/// `char::is_whitespace` accepts.
pub open spec fn is_unicode_whitespace(c: char) -> bool {
    ||| c == '\u{0009}'
    ||| c == '\u{000A}'
    ||| c == '\u{000B}'
    ||| c == '\u{000C}'
    ||| c == '\u{000D}'
    ||| c == ' '
    ||| c == '\u{0085}'
    ||| c == '\u{00A0}'
    ||| c == '\u{1680}'
    ||| ('\u{2000}' <= c && c <= '\u{200A}')
    ||| c == '\u{2028}'
    ||| c == '\u{2029}'
    ||| c == '\u{202F}'
    ||| c == '\u{205F}'
    ||| c == '\u{3000}'
}

/// Whether `char::is_alphanumeric` holds of `c`: a Unicode letter or
/// number, which depends on `c` alone.
pub uninterp spec fn is_unicode_alphanumeric(c: char) -> bool;

/// Relies on char::is_whitespace: true exactly on the characters with
/// the Unicode `White_Space` property, the fixed set
/// `is_unicode_whitespace` lists.
pub assume_specification[ char::is_whitespace ](c: char) -> (r: bool)
    ensures
        r == is_unicode_whitespace(c),
;

/// Relies on char::is_alphanumeric: true exactly on Unicode letters and
/// numbers; on the ASCII range those are exactly the ASCII letters and
/// digits.
pub assume_specification[ char::is_alphanumeric ](c: char) -> (r: bool)
    ensures
        r == is_unicode_alphanumeric(c),
        (c as int) < 128 ==> r == (('a' <= c && c <= 'z') || ('A' <= c && c <= 'Z') || ('0' <= c
            && c <= '9')),
;

/// The characters of `s`, in order.
pub fn chars_of(s: &str) -> (v: Vec<char>)
    ensures
        v@ == s@,
{
    let n = s.unicode_len();
    let mut v: Vec<char> = Vec::new();
    let mut i: usize = 0;
    while i < n
        invariant
            i <= n,
            n == s@.len(),
            v@ == s@.subrange(0, i as int),
        decreases n - i,
    {
        let c = s.get_char(i);
        v.push(c);
        proof {
            assert(s@.subrange(0, i as int + 1) =~= s@.subrange(0, i as int).push(s@[i as int]));
        }
        i = i + 1;
    }
    proof {
        assert(v@ =~= s@);
    }
    v
}

/// Relies on String's FromIterator impl over char: collecting an iterator
/// of characters yields the string made of exactly those characters.
#[verifier::external_body]
pub fn string_from_chars(v: &Vec<char>) -> (s: String)
    ensures
        s@ == v@,
{
    v.iter().collect()
}

/// Whether `c` occurs in `v`.
pub fn contains_char(v: &Vec<char>, c: char) -> (r: bool)
    ensures
        r == v@.contains(c),
{
    let mut i: usize = 0;
    while i < v.len()
        invariant
            i <= v@.len(),
            forall|j: int| 0 <= j < i ==> v@[j] != c,
        decreases v@.len() - i,
    {
        if v[i] == c {
            return true;
        }
        i = i + 1;
    }
    false
}

/// Two given characters occur adjacently in `s`.
pub open spec fn has_pair(s: Seq<char>, a: char, b: char) -> bool {
    exists|i: int| 0 <= i && i + 1 < s.len() && #[trigger] s[i] == a && s[i + 1] == b
}

/// Whether the two-character sequence `a`,`b` occurs in `v`.
pub fn contains_pair(v: &Vec<char>, a: char, b: char) -> (r: bool)
    ensures
        r == has_pair(v@, a, b),
{
    if v.len() < 2 {
        return false;
    }
    let mut i: usize = 0;
    while i + 1 < v.len()
        invariant
            i + 1 <= v@.len(),
            v@.len() <= usize::MAX,
            forall|j: int| 0 <= j && j + 1 < i + 1 ==> !(#[trigger] v@[j] == a && v@[j + 1] == b),
        decreases v@.len() - i,
    {
        if v[i] == a && v[i + 1] == b {
            return true;
        }
        i = i + 1;
    }
    false
}

/// `p` is an initial segment of `s`.
pub open spec fn is_prefix(s: Seq<char>, p: Seq<char>) -> bool {
    p.len() <= s.len() && s.subrange(0, p.len() as int) == p
}

/// Whether the characters of `p` start `v`.
pub fn has_prefix(v: &Vec<char>, p: &str) -> (r: bool)
    ensures
        r == is_prefix(v@, p@),
{
    let pc = chars_of(p);
    if pc.len() > v.len() {
        assert(!is_prefix(v@, p@));
        return false;
    }
    let mut i: usize = 0;
    while i < pc.len()
        invariant
            i <= pc@.len() <= v@.len(),
            pc@ == p@,
            forall|j: int| 0 <= j < i ==> v@[j] == pc@[j],
        decreases pc@.len() - i,
    {
        if v[i] != pc[i] {
            proof {
                assert(v@.subrange(0, p@.len() as int)[i as int] != p@[i as int]);
            }
            return false;
        }
        i = i + 1;
    }
    proof {
        assert(v@.subrange(0, p@.len() as int) =~= p@);
    }
    true
}

/// `p` occurs in `s` as a contiguous run starting at `i`.
pub open spec fn matches_at(s: Seq<char>, p: Seq<char>, i: int) -> bool {
    0 <= i && i + p.len() <= s.len() && s.subrange(i, i + p.len() as int) == p
}

/// `p` occurs somewhere in `s` as a contiguous run.
pub open spec fn has_substring(s: Seq<char>, p: Seq<char>) -> bool {
    exists|i: int| matches_at(s, p, i)
}

/// Whether the characters of `p` occur contiguously in `v`, starting
/// at `from` or later.
fn matches_from(v: &Vec<char>, pc: &Vec<char>, at: usize) -> (r: bool)
    requires
        at + pc@.len() <= v@.len(),
    ensures
        r == matches_at(v@, pc@, at as int),
{
    let n = v.len();
    let mut i: usize = 0;
    while i < pc.len()
        invariant
            i <= pc@.len(),
            at + pc@.len() <= v@.len(),
            n == v@.len(),
            forall|j: int| 0 <= j < i ==> v@[at + j] == pc@[j],
        decreases pc@.len() - i,
    {
        if v[at + i] != pc[i] {
            proof {
                assert(v@.subrange(at as int, at + pc@.len() as int)[i as int] != pc@[i as int]);
            }
            return false;
        }
        i = i + 1;
    }
    proof {
        assert(v@.subrange(at as int, at + pc@.len() as int) =~= pc@);
    }
    true
}

/// Whether the characters of `p` occur contiguously in `v`.
pub fn contains_sub(v: &Vec<char>, p: &str) -> (r: bool)
    ensures
        r == has_substring(v@, p@),
{
    let pc = chars_of(p);
    if pc.len() > v.len() {
        assert(!has_substring(v@, p@));
        return false;
    }
    if pc.len() == 0 {
        assert(v@.subrange(0, 0) =~= p@);
        assert(matches_at(v@, p@, 0));
        return true;
    }
    let mut i: usize = 0;
    while i <= v.len() - pc.len()
        invariant
            pc@ == p@,
            1 <= pc@.len() <= v@.len(),
            i <= v@.len() - pc@.len() + 1,
            v@.len() <= usize::MAX,
            forall|j: int| 0 <= j < i ==> !matches_at(v@, pc@, j),
        decreases v@.len() - pc@.len() + 1 - i,
    {
        if matches_from(v, &pc, i) {
            return true;
        }
        i = i + 1;
    }
    proof {
        assert(forall|j: int| matches_at(v@, p@, j) ==> 0 <= j <= v@.len() - p@.len());
    }
    false
}

/// `s` with leading Unicode whitespace removed.
pub open spec fn trim_start_spec(s: Seq<char>) -> Seq<char>
    decreases s.len(),
{
    if s.len() > 0 && is_unicode_whitespace(s[0]) {
        trim_start_spec(s.drop_first())
    } else {
        s
    }
}

/// `s` with trailing Unicode whitespace removed.
pub open spec fn trim_end_spec(s: Seq<char>) -> Seq<char>
    decreases s.len(),
{
    if s.len() > 0 && is_unicode_whitespace(s[s.len() - 1]) {
        trim_end_spec(s.drop_last())
    } else {
        s
    }
}

/// `s` with leading and trailing Unicode whitespace removed, as
/// `str::trim` leaves it.
pub open spec fn trim_spec(s: Seq<char>) -> Seq<char> {
    trim_end_spec(trim_start_spec(s))
}

proof fn lemma_trim_start_skip(s: Seq<char>, k: int)
    requires
        0 <= k <= s.len(),
        forall|j: int| 0 <= j < k ==> is_unicode_whitespace(s[j]),
    ensures
        trim_start_spec(s) == trim_start_spec(s.subrange(k, s.len() as int)),
    decreases k,
{
    if k > 0 {
        let rest = s.drop_first();
        assert(rest =~= s.subrange(1, s.len() as int));
        lemma_trim_start_skip(rest, k - 1);
        assert(rest.subrange(k - 1, rest.len() as int) =~= s.subrange(k, s.len() as int));
    } else {
        assert(s.subrange(0, s.len() as int) =~= s);
    }
}

proof fn lemma_trim_end_skip(s: Seq<char>, k: int)
    requires
        0 <= k <= s.len(),
        forall|j: int| k <= j < s.len() ==> is_unicode_whitespace(s[j]),
    ensures
        trim_end_spec(s) == trim_end_spec(s.subrange(0, k)),
    decreases s.len() - k,
{
    if k < s.len() {
        let rest = s.drop_last();
        assert(rest =~= s.subrange(0, s.len() - 1));
        lemma_trim_end_skip(rest, k);
        assert(rest.subrange(0, k) =~= s.subrange(0, k));
    } else {
        assert(s.subrange(0, s.len() as int) =~= s);
    }
}

/// The characters of `v` with leading and trailing Unicode whitespace
/// removed.
pub fn trim_chars(v: &Vec<char>) -> (t: Vec<char>)
    ensures
        t@ == trim_spec(v@),
{
    let n = v.len();
    let mut lo: usize = 0;
    while lo < n && v[lo].is_whitespace()
        invariant
            lo <= n,
            n == v@.len(),
            forall|j: int| 0 <= j < lo ==> is_unicode_whitespace(v@[j]),
        decreases n - lo,
    {
        lo = lo + 1;
    }
    proof {
        lemma_trim_start_skip(v@, lo as int);
        assert(trim_start_spec(v@) == v@.subrange(lo as int, n as int));
    }
    let mut hi: usize = n;
    while hi > lo && v[hi - 1].is_whitespace()
        invariant
            lo <= hi <= n,
            n == v@.len(),
            forall|j: int| hi <= j < n ==> is_unicode_whitespace(v@[j]),
        decreases hi,
    {
        hi = hi - 1;
    }
    proof {
        let start = v@.subrange(lo as int, n as int);
        lemma_trim_end_skip(start, hi - lo);
        assert(start.subrange(0, hi - lo) =~= v@.subrange(lo as int, hi as int));
        assert(trim_spec(v@) == trim_end_spec(v@.subrange(lo as int, hi as int)));
    }
    let mut t: Vec<char> = Vec::new();
    let mut i: usize = lo;
    while i < hi
        invariant
            lo <= i <= hi <= n,
            n == v@.len(),
            t@ == v@.subrange(lo as int, i as int),
        decreases hi - i,
    {
        t.push(v[i]);
        proof {
            assert(v@.subrange(lo as int, i as int + 1) =~= v@.subrange(lo as int, i as int).push(
                v@[i as int],
            ));
        }
        i = i + 1;
    }
    t
}

/// The index of the first occurrence of `c` in `s`, or `s.len()` when
/// `c` does not occur.
pub open spec fn find_char(s: Seq<char>, c: char) -> nat
    decreases s.len(),
{
    if s.len() == 0 {
        0
    } else if s[0] == c {
        0
    } else {
        1 + find_char(s.drop_first(), c)
    }
}

pub proof fn lemma_find_char_at(s: Seq<char>, c: char, k: int)
    requires
        0 <= k <= s.len(),
        k < s.len() ==> s[k] == c,
        forall|j: int| 0 <= j < k ==> s[j] != c,
    ensures
        find_char(s, c) == k,
    decreases s.len(),
{
    if s.len() > 0 && s[0] != c {
        assert forall|j: int| 0 <= j < k - 1 implies s.drop_first()[j] != c by {
            assert(s.drop_first()[j] == s[j + 1]);
        }
        lemma_find_char_at(s.drop_first(), c, k - 1);
    }
}

/// A line as `str::lines` leaves it: a trailing carriage return is
/// dropped.
pub open spec fn strip_cr(l: Seq<char>) -> Seq<char> {
    if l.len() > 0 && l.last() == '\r' {
        l.drop_last()
    } else {
        l
    }
}

/// The lines of `s`, split at `\n` with a trailing `\r` dropped from
/// each, and no empty final line for text ending in a newline — as
/// `str::lines` yields them.
pub open spec fn lines_spec(s: Seq<char>) -> Seq<Seq<char>>
    decreases s.len(),
{
    if s.len() == 0 {
        Seq::empty()
    } else {
        let i = find_char(s, '\n') as int;
        if i < s.len() {
            seq![strip_cr(s.subrange(0, i))] + lines_spec(s.subrange(i + 1, s.len() as int))
        } else {
            seq![strip_cr(s)]
        }
    }
}

/// The given lines joined with single `\n` separators.
pub open spec fn join_nl(ls: Seq<Seq<char>>) -> Seq<char>
    decreases ls.len(),
{
    if ls.len() == 0 {
        Seq::empty()
    } else if ls.len() == 1 {
        ls[0]
    } else {
        join_nl(ls.drop_last()) + seq!['\n'] + ls.last()
    }
}

/// The characters of `v` with leading Unicode whitespace removed.
pub fn trim_start_chars(v: &Vec<char>) -> (t: Vec<char>)
    ensures
        t@ == trim_start_spec(v@),
{
    let n = v.len();
    let mut lo: usize = 0;
    while lo < n && v[lo].is_whitespace()
        invariant
            lo <= n,
            n == v@.len(),
            forall|j: int| 0 <= j < lo ==> is_unicode_whitespace(v@[j]),
        decreases n - lo,
    {
        lo = lo + 1;
    }
    proof {
        lemma_trim_start_skip(v@, lo as int);
    }
    let mut t: Vec<char> = Vec::new();
    let mut i: usize = lo;
    while i < n
        invariant
            lo <= i <= n,
            n == v@.len(),
            t@ == v@.subrange(lo as int, i as int),
        decreases n - i,
    {
        t.push(v[i]);
        proof {
            assert(v@.subrange(lo as int, i as int + 1) =~= v@.subrange(lo as int, i as int).push(
                v@[i as int],
            ));
        }
        i = i + 1;
    }
    t
}

/// The lines of `v` from position `pos` on, as `lines_spec` describes
/// them.
pub fn split_lines_from(v: &Vec<char>, pos: usize) -> (lines: Vec<Vec<char>>)
    requires
        pos <= v@.len(),
    ensures
        lines@.len() == lines_spec(v@.subrange(pos as int, v@.len() as int)).len(),
        forall|i: int|
            0 <= i < lines@.len() ==> (#[trigger] lines@[i])@ == lines_spec(
                v@.subrange(pos as int, v@.len() as int),
            )[i],
    decreases v@.len() - pos,
{
    let ghost s = v@.subrange(pos as int, v@.len() as int);
    let n = v.len();
    if pos == n {
        let lines: Vec<Vec<char>> = Vec::new();
        return lines;
    }
    let mut e: usize = pos;
    while e < n && v[e] != '\n'
        invariant
            pos <= e <= n,
            n == v@.len(),
            forall|j: int| pos <= j < e ==> v@[j] != '\n',
        decreases n - e,
    {
        e = e + 1;
    }
    proof {
        assert forall|j: int| 0 <= j < e - pos implies s[j] != '\n' by {
            assert(s[j] == v@[pos + j]);
        }
        if e < n {
            assert(s[e - pos] == v@[e as int]);
        }
        lemma_find_char_at(s, '\n', e - pos);
    }
    let mut stop = e;
    if stop > pos && v[stop - 1] == '\r' {
        stop = stop - 1;
    }
    let mut line: Vec<char> = Vec::new();
    let mut i: usize = pos;
    while i < stop
        invariant
            pos <= i <= stop <= n,
            n == v@.len(),
            line@ == v@.subrange(pos as int, i as int),
        decreases stop - i,
    {
        line.push(v[i]);
        proof {
            assert(v@.subrange(pos as int, i as int + 1) =~= v@.subrange(pos as int, i as int).push(
                v@[i as int],
            ));
        }
        i = i + 1;
    }
    proof {
        if e < n {
            assert(s.subrange(0, e - pos) =~= v@.subrange(pos as int, e as int));
        } else {
            assert(s =~= v@.subrange(pos as int, e as int));
        }
        if stop < e {
            assert(v@.subrange(pos as int, e as int).last() == '\r');
            assert(v@.subrange(pos as int, e as int).drop_last() =~= v@.subrange(
                pos as int,
                stop as int,
            ));
        }
        assert(line@ == strip_cr(v@.subrange(pos as int, e as int)));
    }
    if e == n {
        let mut lines: Vec<Vec<char>> = Vec::new();
        lines.push(line);
        return lines;
    }
    let mut rest = split_lines_from(v, e + 1);
    let ghost srest = v@.subrange(e as int + 1, v@.len() as int);
    let ghost rest_view = rest@;
    let mut lines: Vec<Vec<char>> = Vec::new();
    lines.push(line);
    lines.append(&mut rest);
    proof {
        assert(lines@ =~= seq![line] + rest_view);
        assert(lines_spec(s) == seq![strip_cr(s.subrange(0, e - pos))] + lines_spec(
            s.subrange(e - pos + 1, s.len() as int),
        ));
        assert(s.subrange(e - pos + 1, s.len() as int) =~= srest);
    }
    lines
}

/// Whether the characters of `v` are exactly those of `p`.
pub fn equals_str(v: &Vec<char>, p: &str) -> (r: bool)
    ensures
        r == (v@ == p@),
{
    let pc = chars_of(p);
    if pc.len() != v.len() {
        return false;
    }
    let mut i: usize = 0;
    while i < pc.len()
        invariant
            i <= pc@.len(),
            pc@ == p@,
            pc@.len() == v@.len(),
            forall|j: int| 0 <= j < i ==> v@[j] == pc@[j],
        decreases pc@.len() - i,
    {
        if v[i] != pc[i] {
            return false;
        }
        i = i + 1;
    }
    proof {
        assert(v@ =~= pc@);
    }
    true
}

} // verus!
