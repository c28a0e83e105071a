//! Classification of probe output.
//!
//! The platform probe utility prints localized, free-form text.  This module
//! splits captured text into trimmed, non-blank lines and extracts a single
//! human-readable summary line by priority: a line with success markers (or
//! failure markers for a failed probe), else the first line that is not the
//! utility's own banner, else the first line of any kind, else a synthesized
//! `ping <address> ok` / `ping <address> failed`.

use vstd::prelude::*;

verus! {

/// Whitespace as the trimming here understands it.
pub open spec fn is_space(c: char) -> bool {
    c == ' ' || c == '\t' || c == '\r' || c == '\n'
}

/// ASCII lowercasing of one character; everything but `A`..`Z` is unchanged.
pub open spec fn lower_char(c: char) -> char {
    if 65 <= c as u32 && c as u32 <= 90 {
        ((c as u32 + 32) as u8) as char
    } else {
        c
    }
}

/// `p` occurs in `s` at position `i`.
pub open spec fn matches_at(s: Seq<char>, p: Seq<char>, i: int) -> bool {
    forall|j: int| 0 <= j < p.len() ==> s[i + j] == #[trigger] p[j]
}

/// `p` occurs somewhere in `s`.
pub open spec fn has_sub(s: Seq<char>, p: Seq<char>) -> bool {
    exists|i: int| 0 <= i && i + p.len() <= s.len() && #[trigger] matches_at(s, p, i)
}

/// `p` occurs in `s` at position `i`, comparing `s` ASCII-lowercased.
pub open spec fn matches_ci_at(s: Seq<char>, p: Seq<char>, i: int) -> bool {
    forall|j: int| 0 <= j < p.len() ==> lower_char(s[i + j]) == #[trigger] p[j]
}

/// `p` occurs somewhere in `s`, comparing `s` ASCII-lowercased; `p` is
/// expected lowercase already.
pub open spec fn has_sub_ci(s: Seq<char>, p: Seq<char>) -> bool {
    exists|i: int| 0 <= i && i + p.len() <= s.len() && #[trigger] matches_ci_at(s, p, i)
}

/// `s` starts with `p`, comparing `s` ASCII-lowercased.
pub open spec fn starts_with_ci(s: Seq<char>, p: Seq<char>) -> bool {
    p.len() <= s.len() && matches_ci_at(s, p, 0)
}

/// Whitespace test for one character.
pub fn is_space_char(c: char) -> (r: bool)
    ensures
        r == is_space(c),
{
    c == ' ' || c == '\t' || c == '\r' || c == '\n'
}

/// ASCII lowercasing of one character.
pub fn to_lower(c: char) -> (r: char)
    ensures
        r == lower_char(c),
{
    let u = c as u32;
    if 65 <= u && u <= 90 {
        ((u + 32) as u8) as char
    } else {
        c
    }
}

/// Does `p` occur in `s` starting at character position `i`?
fn match_at(s: &str, p: &str, i: usize) -> (r: bool)
    requires
        i + p@.len() <= s@.len(),
        s@.len() <= usize::MAX,
    ensures
        r == matches_at(s@, p@, i as int),
{
    let m = p.unicode_len();
    let mut j: usize = 0;
    while j < m
        invariant
            j <= m,
            m == p@.len(),
            i + m <= s@.len(),
            s@.len() <= usize::MAX,
            forall|k: int| 0 <= k < j ==> s@[i + k] == #[trigger] p@[k],
        decreases m - j,
    {
        if s.get_char(i + j) != p.get_char(j) {
            return false;
        }
        j = j + 1;
    }
    true
}

/// Does `p` occur in `s` starting at character position `i`, with `s`
/// ASCII-lowercased?
fn match_ci_at(s: &str, p: &str, i: usize) -> (r: bool)
    requires
        i + p@.len() <= s@.len(),
        s@.len() <= usize::MAX,
    ensures
        r == matches_ci_at(s@, p@, i as int),
{
    let m = p.unicode_len();
    let mut j: usize = 0;
    while j < m
        invariant
            j <= m,
            m == p@.len(),
            i + m <= s@.len(),
            s@.len() <= usize::MAX,
            forall|k: int| 0 <= k < j ==> lower_char(s@[i + k]) == #[trigger] p@[k],
        decreases m - j,
    {
        if to_lower(s.get_char(i + j)) != p.get_char(j) {
            return false;
        }
        j = j + 1;
    }
    true
}

/// Substring test: does `pat` occur anywhere in `s`?
pub fn contains_sub(s: &str, pat: &str) -> (r: bool)
    ensures
        r == has_sub(s@, pat@),
{
    let n = s.unicode_len();
    let m = pat.unicode_len();
    if m > n {
        return false;
    }
    if m == 0 {
        proof {
            assert(matches_at(s@, pat@, 0));
        }
        return true;
    }
    let mut i: usize = 0;
    while i <= n - m
        invariant
            1 <= m <= n,
            n == s@.len(),
            m == pat@.len(),
            i <= n - m + 1,
            forall|k: int| 0 <= k < i ==> !#[trigger] matches_at(s@, pat@, k),
        decreases n - i,
    {
        if match_at(s, pat, i) {
            return true;
        }
        i = i + 1;
    }
    false
}

/// Substring test with `s` ASCII-lowercased; `pat` is given lowercase.
pub fn contains_sub_ci(s: &str, pat: &str) -> (r: bool)
    ensures
        r == has_sub_ci(s@, pat@),
{
    let n = s.unicode_len();
    let m = pat.unicode_len();
    if m > n {
        return false;
    }
    if m == 0 {
        proof {
            assert(matches_ci_at(s@, pat@, 0));
        }
        return true;
    }
    let mut i: usize = 0;
    while i <= n - m
        invariant
            1 <= m <= n,
            n == s@.len(),
            m == pat@.len(),
            i <= n - m + 1,
            forall|k: int| 0 <= k < i ==> !#[trigger] matches_ci_at(s@, pat@, k),
        decreases n - i,
    {
        if match_ci_at(s, pat, i) {
            return true;
        }
        i = i + 1;
    }
    false
}

/// Prefix test with `s` ASCII-lowercased; `pat` is given lowercase.
pub fn has_prefix_ci(s: &str, pat: &str) -> (r: bool)
    ensures
        r == starts_with_ci(s@, pat@),
{
    let n = s.unicode_len();
    let m = pat.unicode_len();
    if m > n {
        return false;
    }
    match_ci_at(s, pat, 0)
}

/// A line carrying a success marker: an echo reply, a byte count, a round
/// trip time, or a localized equivalent.
pub open spec fn spec_is_success_line(s: Seq<char>) -> bool {
    ||| has_sub(s, "Reply from"@)
    ||| has_sub(s, "bytes from"@)
    ||| has_sub(s, "bytes="@)
    ||| has_sub_ci(s, "time="@)
    ||| has_sub_ci(s, "time<"@)
    ||| has_sub_ci(s, "ttl="@)
    ||| has_sub_ci(s, "ms"@)
    ||| has_sub(s, "时间"@)
    ||| has_sub(s, "字节="@)
}

/// A line carrying a failure marker: a timeout, unreachable, general failure,
/// name-resolution failure, or a localized equivalent.
pub open spec fn spec_is_error_line(s: Seq<char>) -> bool {
    ||| has_sub_ci(s, "timed out"@)
    ||| has_sub_ci(s, "timeout"@)
    ||| has_sub_ci(s, "unreachable"@)
    ||| has_sub_ci(s, "general failure"@)
    ||| has_sub_ci(s, "could not find host"@)
    ||| has_sub_ci(s, "name or service not known"@)
    ||| has_sub(s, "请求超时"@)
    ||| has_sub(s, "无法访问"@)
    ||| has_sub(s, "一般故障"@)
    ||| has_sub(s, "找不到主机"@)
    ||| has_sub(s, "无法解析"@)
}

/// A banner line of the probe utility itself, to be deprioritized.
pub open spec fn spec_is_header_line(s: Seq<char>) -> bool {
    ||| starts_with_ci(s, "pinging "@)
    ||| starts_with_ci(s, "ping "@)
    ||| has_sub(s, "正在 Ping"@)
    ||| has_sub(s, "正在ping"@)
}

/// Does the line carry a success marker?
pub fn has_success_marker(line: &str) -> (r: bool)
    ensures
        r == spec_is_success_line(line@),
{
    contains_sub(line, "Reply from") || contains_sub(line, "bytes from") || contains_sub(
        line,
        "bytes=",
    ) || contains_sub_ci(line, "time=") || contains_sub_ci(line, "time<") || contains_sub_ci(
        line,
        "ttl=",
    ) || contains_sub_ci(line, "ms") || contains_sub(line, "时间") || contains_sub(line, "字节=")
}

/// Does the line carry a failure marker?
pub fn has_error_marker(line: &str) -> (r: bool)
    ensures
        r == spec_is_error_line(line@),
{
    contains_sub_ci(line, "timed out") || contains_sub_ci(line, "timeout") || contains_sub_ci(
        line,
        "unreachable",
    ) || contains_sub_ci(line, "general failure") || contains_sub_ci(line, "could not find host")
        || contains_sub_ci(line, "name or service not known") || contains_sub(line, "请求超时")
        || contains_sub(line, "无法访问") || contains_sub(line, "一般故障") || contains_sub(
        line,
        "找不到主机",
    ) || contains_sub(line, "无法解析")
}

/// Is the line the probe utility's own banner?
pub fn is_header_line(line: &str) -> (r: bool)
    ensures
        r == spec_is_header_line(line@),
{
    has_prefix_ci(line, "pinging ") || has_prefix_ci(line, "ping ") || contains_sub(
        line,
        "正在 Ping",
    ) || contains_sub(line, "正在ping")
}

/// The text with leading whitespace removed.
pub open spec fn trim_start(s: Seq<char>) -> Seq<char>
    decreases s.len(),
{
    if s.len() > 0 && is_space(s[0]) {
        trim_start(s.drop_first())
    } else {
        s
    }
}

/// The text with trailing whitespace removed.
pub open spec fn trim_end(s: Seq<char>) -> Seq<char>
    decreases s.len(),
{
    if s.len() > 0 && is_space(s.last()) {
        trim_end(s.drop_last())
    } else {
        s
    }
}

/// The text with leading and trailing whitespace removed.
pub open spec fn trim(s: Seq<char>) -> Seq<char> {
    trim_end(trim_start(s))
}

/// Position of the first line break in `s`, or its length if there is none.
pub open spec fn first_nl(s: Seq<char>) -> int
    decreases s.len(),
{
    if s.len() == 0 {
        0
    } else if s[0] == '\n' {
        0
    } else {
        1 + first_nl(s.drop_first())
    }
}

/// The trimmed, non-blank lines of `s`, in order.
pub open spec fn trimmed_lines(s: Seq<char>) -> Seq<Seq<char>>
    decreases s.len(),
{
    if s.len() == 0 {
        Seq::empty()
    } else {
        let k = first_nl(s);
        if 0 <= k && k < s.len() {
            let head = trim(s.subrange(0, k));
            let rest = trimmed_lines(s.subrange(k + 1, s.len() as int));
            if head.len() == 0 {
                rest
            } else {
                seq![head] + rest
            }
        } else {
            let head = trim(s);
            if head.len() == 0 {
                Seq::empty()
            } else {
                seq![head]
            }
        }
    }
}

proof fn lemma_trim_start_at(s: Seq<char>, a: int)
    requires
        0 <= a <= s.len(),
        forall|j: int| 0 <= j < a ==> is_space(#[trigger] s[j]),
        a < s.len() ==> !is_space(s[a]),
    ensures
        trim_start(s) == s.subrange(a, s.len() as int),
    decreases a,
{
    if a == 0 {
        assert(trim_start(s) =~= s.subrange(0, s.len() as int));
    } else {
        lemma_trim_start_at(s.drop_first(), a - 1);
        assert(s.drop_first().subrange(a - 1, s.drop_first().len() as int) =~= s.subrange(
            a,
            s.len() as int,
        ));
    }
}

proof fn lemma_trim_end_at(s: Seq<char>, b: int)
    requires
        0 <= b <= s.len(),
        forall|j: int| b <= j < s.len() ==> is_space(#[trigger] s[j]),
        b > 0 ==> !is_space(s[b - 1]),
    ensures
        trim_end(s) == s.subrange(0, b),
    decreases s.len() - b,
{
    if b == s.len() {
        assert(trim_end(s) =~= s.subrange(0, b));
    } else {
        lemma_trim_end_at(s.drop_last(), b);
        assert(s.drop_last().subrange(0, b) =~= s.subrange(0, b));
    }
}

/// Trimming characterized by the bounds of its result: if everything before
/// `a` and from `b` on is whitespace and the edges inside are not, the trim
/// of `s` is exactly `s[a..b]`.
pub proof fn lemma_trim_is(s: Seq<char>, a: int, b: int)
    requires
        0 <= a <= b <= s.len(),
        forall|j: int| 0 <= j < a ==> is_space(#[trigger] s[j]),
        forall|j: int| b <= j < s.len() ==> is_space(#[trigger] s[j]),
        a < b ==> !is_space(s[a]) && !is_space(s[b - 1]),
    ensures
        trim(s) == s.subrange(a, b),
    decreases s.len(),
{
    if a == b {
        lemma_trim_start_at(s, s.len() as int);
        assert(trim_start(s) =~= Seq::<char>::empty());
        assert(trim(s) =~= s.subrange(a, b));
    } else {
        lemma_trim_start_at(s, a);
        let u = s.subrange(a, s.len() as int);
        lemma_trim_end_at(u, b - a);
        assert(u.subrange(0, b - a) =~= s.subrange(a, b));
    }
}

/// `first_nl` characterized: if nothing before `k` is a line break and `k` is
/// one or the end, the first break is at `k`.
pub proof fn lemma_first_nl_at(s: Seq<char>, k: int)
    requires
        0 <= k <= s.len(),
        forall|j: int| 0 <= j < k ==> #[trigger] s[j] != '\n',
        k < s.len() ==> s[k] == '\n',
    ensures
        first_nl(s) == k,
    decreases k,
{
    if s.len() == 0 {
    } else if k == 0 {
    } else {
        lemma_first_nl_at(s.drop_first(), k - 1);
    }
}

/// Model of a vector of lines: their character sequences in order.
pub open spec fn lines_model(v: Seq<String>) -> Seq<Seq<char>> {
    v.map_values(|s: String| s@)
}

/// Append the trimmed form of `text[start..end]` to `lines`, unless it is
/// blank.
fn push_trimmed(lines: &mut Vec<String>, text: &str, start: usize, end: usize)
    requires
        start <= end,
        end <= text@.len(),
        text@.len() <= usize::MAX,
    ensures
        lines_model(final(lines)@) == ({
            let t = trim(text@.subrange(start as int, end as int));
            if t.len() == 0 {
                lines_model(old(lines)@)
            } else {
                lines_model(old(lines)@).push(t)
            }
        }),
{
    let ghost seg = text@.subrange(start as int, end as int);
    let mut a: usize = start;
    while a < end && is_space_char(text.get_char(a))
        invariant
            start <= a <= end,
            end <= text@.len(),
            text@.len() <= usize::MAX,
            forall|j: int| start <= j < a ==> is_space(#[trigger] text@[j]),
        decreases end - a,
    {
        a = a + 1;
    }
    let mut b: usize = end;
    while b > a && is_space_char(text.get_char(b - 1))
        invariant
            a <= b <= end,
            end <= text@.len(),
            text@.len() <= usize::MAX,
            forall|j: int| b <= j < end ==> is_space(#[trigger] text@[j]),
        decreases b,
    {
        b = b - 1;
    }
    proof {
        lemma_trim_is(seg, a - start, b - start);
        assert(seg.subrange(a - start, b - start) =~= text@.subrange(a as int, b as int));
    }
    if a < b {
        let piece = text.substring_char(a, b);
        lines.push(piece.to_owned());
        proof {
            assert(lines_model(lines@) =~= lines_model(old(lines)@).push(trim(seg)));
        }
    }
}

/// Split `text` into its trimmed, non-blank lines.
pub fn split_lines(text: &str) -> (lines: Vec<String>)
    ensures
        lines_model(lines@) == trimmed_lines(text@),
{
    let n = text.unicode_len();
    let mut lines: Vec<String> = Vec::new();
    let mut start: usize = 0;
    let mut i: usize = 0;
    proof {
        assert(text@.subrange(0, n as int) =~= text@);
        assert(lines_model(lines@) + trimmed_lines(text@) =~~= trimmed_lines(text@));
    }
    while i < n
        invariant
            start <= i <= n,
            n == text@.len(),
            forall|j: int| start <= j < i ==> #[trigger] text@[j] != '\n',
            trimmed_lines(text@) == lines_model(lines@) + trimmed_lines(
                text@.subrange(start as int, n as int),
            ),
        decreases n - i,
    {
        if text.get_char(i) == '\n' {
            proof {
                let suffix = text@.subrange(start as int, n as int);
                lemma_first_nl_at(suffix, i - start);
                assert(suffix.subrange(0, i - start) =~= text@.subrange(start as int, i as int));
                assert(suffix.subrange(i - start + 1, suffix.len() as int) =~= text@.subrange(
                    i + 1,
                    n as int,
                ));
            }
            push_trimmed(&mut lines, text, start, i);
            proof {
                assert(trimmed_lines(text@) =~~= lines_model(lines@) + trimmed_lines(
                    text@.subrange(i + 1, n as int),
                ));
            }
            start = i + 1;
        }
        i = i + 1;
    }
    proof {
        let suffix = text@.subrange(start as int, n as int);
        lemma_first_nl_at(suffix, n - start);
        assert(suffix.subrange(0, n - start) =~= suffix);
    }
    push_trimmed(&mut lines, text, start, n);
    proof {
        assert(lines_model(lines@) =~~= trimmed_lines(text@));
    }
    lines
}

/// The first line satisfying `f`, if any.
pub open spec fn first_where(lines: Seq<Seq<char>>, f: spec_fn(Seq<char>) -> bool) -> Option<
    Seq<char>,
>
    decreases lines.len(),
{
    if lines.len() == 0 {
        None
    } else if f(lines[0]) {
        Some(lines[0])
    } else {
        first_where(lines.drop_first(), f)
    }
}

/// `first_where` characterized by a scan that stopped at `i`: nothing before
/// `i` satisfies `f`, and `i` (if inside) does.
pub proof fn lemma_first_where_at(lines: Seq<Seq<char>>, f: spec_fn(Seq<char>) -> bool, i: int)
    requires
        0 <= i <= lines.len(),
        forall|k: int| 0 <= k < i ==> !f(#[trigger] lines[k]),
        i < lines.len() ==> f(lines[i]),
    ensures
        first_where(lines, f) == if i < lines.len() {
            Some(lines[i])
        } else {
            None::<Seq<char>>
        },
    decreases i,
{
    if lines.len() > 0 && i > 0 {
        lemma_first_where_at(lines.drop_first(), f, i - 1);
    }
}

/// View of an optional line.
pub open spec fn opt_line_view(r: Option<String>) -> Option<Seq<char>> {
    match r {
        Some(s) => Some(s@),
        None => None,
    }
}

/// The first line with a success marker.
pub open spec fn spec_select_success_line(lines: Seq<Seq<char>>) -> Option<Seq<char>> {
    first_where(lines, |l: Seq<char>| spec_is_success_line(l))
}

/// The first line with a failure marker.
pub open spec fn spec_select_error_line(lines: Seq<Seq<char>>) -> Option<Seq<char>> {
    first_where(lines, |l: Seq<char>| spec_is_error_line(l))
}

/// The first line that is not the utility's banner.
pub open spec fn spec_select_non_header_line(lines: Seq<Seq<char>>) -> Option<Seq<char>> {
    first_where(lines, |l: Seq<char>| !spec_is_header_line(l))
}

/// The first line carrying a success marker, if any.
pub fn select_success_line(lines: &Vec<String>) -> (r: Option<String>)
    ensures
        opt_line_view(r) == spec_select_success_line(lines_model(lines@)),
{
    let mut i: usize = 0;
    while i < lines.len()
        invariant
            i <= lines@.len(),
            forall|k: int|
                0 <= k < i ==> !spec_is_success_line(#[trigger] lines_model(lines@)[k]),
        decreases lines@.len() - i,
    {
        if has_success_marker(lines[i].as_str()) {
            proof {
                lemma_first_where_at(
                    lines_model(lines@),
                    |l: Seq<char>| spec_is_success_line(l),
                    i as int,
                );
            }
            return Some(lines[i].clone());
        }
        i = i + 1;
    }
    proof {
        lemma_first_where_at(
            lines_model(lines@),
            |l: Seq<char>| spec_is_success_line(l),
            lines@.len() as int,
        );
    }
    None
}

/// The first line carrying a failure marker, if any.
pub fn select_error_line(lines: &Vec<String>) -> (r: Option<String>)
    ensures
        opt_line_view(r) == spec_select_error_line(lines_model(lines@)),
{
    let mut i: usize = 0;
    while i < lines.len()
        invariant
            i <= lines@.len(),
            forall|k: int| 0 <= k < i ==> !spec_is_error_line(#[trigger] lines_model(lines@)[k]),
        decreases lines@.len() - i,
    {
        if has_error_marker(lines[i].as_str()) {
            proof {
                lemma_first_where_at(
                    lines_model(lines@),
                    |l: Seq<char>| spec_is_error_line(l),
                    i as int,
                );
            }
            return Some(lines[i].clone());
        }
        i = i + 1;
    }
    proof {
        lemma_first_where_at(
            lines_model(lines@),
            |l: Seq<char>| spec_is_error_line(l),
            lines@.len() as int,
        );
    }
    None
}

/// The first line that is not the probe utility's banner, if any.
pub fn select_non_header_line(lines: &Vec<String>) -> (r: Option<String>)
    ensures
        opt_line_view(r) == spec_select_non_header_line(lines_model(lines@)),
{
    let mut i: usize = 0;
    while i < lines.len()
        invariant
            i <= lines@.len(),
            forall|k: int| 0 <= k < i ==> spec_is_header_line(#[trigger] lines_model(lines@)[k]),
        decreases lines@.len() - i,
    {
        if !is_header_line(lines[i].as_str()) {
            proof {
                lemma_first_where_at(
                    lines_model(lines@),
                    |l: Seq<char>| !spec_is_header_line(l),
                    i as int,
                );
            }
            return Some(lines[i].clone());
        }
        i = i + 1;
    }
    proof {
        lemma_first_where_at(
            lines_model(lines@),
            |l: Seq<char>| !spec_is_header_line(l),
            lines@.len() as int,
        );
    }
    None
}

/// Is the text blank, that is, empty once trimmed?
pub fn is_blank(s: &str) -> (r: bool)
    ensures
        r == (trim(s@).len() == 0),
{
    let n = s.unicode_len();
    let mut a: usize = 0;
    while a < n && is_space_char(s.get_char(a))
        invariant
            a <= n,
            n == s@.len(),
            forall|j: int| 0 <= j < a ==> is_space(#[trigger] s@[j]),
        decreases n - a,
    {
        a = a + 1;
    }
    if a == n {
        proof {
            lemma_trim_is(s@, n as int, n as int);
        }
        true
    } else {
        proof {
            lemma_trim_start_at(s@, a as int);
            lemma_trim_end_keeps_head(s@.subrange(a as int, n as int));
        }
        false
    }
}

/// Trimming from the end cannot empty a text whose first character is not
/// whitespace.
proof fn lemma_trim_end_keeps_head(s: Seq<char>)
    requires
        s.len() > 0,
        !is_space(s[0]),
    ensures
        trim_end(s).len() > 0,
        trim(s) == trim_end(s),
    decreases s.len(),
{
    if s.len() > 1 && is_space(s.last()) {
        lemma_trim_end_keeps_head(s.drop_last());
    }
}

/// What one probe invocation handed back, already decoded: the process's
/// success flag and both output streams.
pub struct ProbeCapture {
    pub success: bool,
    pub stdout: String,
    pub stderr: String,
}

/// The stream to classify: standard output on success, else standard error
/// unless blank, else standard output again.
pub open spec fn spec_chosen_text(success: bool, out: Seq<char>, err: Seq<char>) -> Seq<char> {
    if success {
        out
    } else if trim(err).len() > 0 {
        err
    } else {
        out
    }
}

/// The preferred summary line: the first line with the outcome's markers,
/// else the first non-banner line, else the first line of any kind.
pub open spec fn spec_pick_line(success: bool, lines: Seq<Seq<char>>) -> Option<Seq<char>> {
    let primary = if success {
        spec_select_success_line(lines)
    } else {
        spec_select_error_line(lines)
    };
    if primary is Some {
        primary
    } else {
        let nh = spec_select_non_header_line(lines);
        if nh is Some {
            nh
        } else if lines.len() > 0 {
            Some(lines[0])
        } else {
            None
        }
    }
}

/// The summary synthesized when the probe printed nothing usable.
pub open spec fn spec_synth_summary(success: bool, address: Seq<char>) -> Seq<char> {
    "ping "@ + address + if success {
        " ok"@
    } else {
        " failed"@
    }
}

/// The summary extracted from one decoded text.
pub open spec fn spec_summary(success: bool, address: Seq<char>, text: Seq<char>) -> Seq<char> {
    match spec_pick_line(success, trimmed_lines(text)) {
        Some(l) => l,
        None => spec_synth_summary(success, address),
    }
}

/// The summary of one probe invocation over both captured streams.
pub open spec fn spec_probe_summary(
    success: bool,
    address: Seq<char>,
    out: Seq<char>,
    err: Seq<char>,
) -> Seq<char> {
    spec_summary(success, address, spec_chosen_text(success, out, err))
}

/// Classify one probe invocation: `Ok` exactly when the probe succeeded, and
/// in either case the extracted (or synthesized) one-line summary.
pub fn ping_once(address: &str, cap: &ProbeCapture) -> (r: Result<String, String>)
    ensures
        r is Ok <==> cap.success,
        r is Ok ==> r->Ok_0@ == spec_probe_summary(true, address@, cap.stdout@, cap.stderr@),
        r is Err ==> r->Err_0@ == spec_probe_summary(false, address@, cap.stdout@, cap.stderr@),
{
    let text: &str = if cap.success {
        cap.stdout.as_str()
    } else if !is_blank(cap.stderr.as_str()) {
        cap.stderr.as_str()
    } else {
        cap.stdout.as_str()
    };
    let lines = split_lines(text);
    let mut preferred: Option<String> = if cap.success {
        select_success_line(&lines)
    } else {
        select_error_line(&lines)
    };
    if preferred.is_none() {
        preferred = select_non_header_line(&lines);
    }
    if preferred.is_none() && lines.len() > 0 {
        preferred = Some(lines[0].clone());
    }
    let summary: String = match preferred {
        Some(l) => l,
        None => {
            let mut s = "ping ".to_owned();
            s.append(address);
            if cap.success {
                s.append(" ok");
            } else {
                s.append(" failed");
            }
            proof {
                assert(s@ =~= spec_synth_summary(cap.success, address@));
            }
            s
        },
    };
    if cap.success {
        Ok(summary)
    } else {
        Err(summary)
    }
}

proof fn lemma_trim_start_head(s: Seq<char>)
    ensures
        trim_start(s).len() <= s.len(),
        trim_start(s).len() > 0 ==> !is_space(trim_start(s)[0]),
        s.len() > 0 && !is_space(s[0]) ==> trim_start(s) == s,
    decreases s.len(),
{
    if s.len() > 0 && is_space(s[0]) {
        lemma_trim_start_head(s.drop_first());
    }
}

proof fn lemma_trim_end_prefix(s: Seq<char>)
    ensures
        trim_end(s).len() <= s.len(),
        trim_end(s) == s.subrange(0, trim_end(s).len() as int),
        trim_end(s).len() > 0 ==> !is_space(trim_end(s).last()),
    decreases s.len(),
{
    if s.len() > 0 && is_space(s.last()) {
        lemma_trim_end_prefix(s.drop_last());
        assert(s.drop_last().subrange(0, trim_end(s).len() as int) =~= s.subrange(
            0,
            trim_end(s).len() as int,
        ));
    } else {
        assert(trim_end(s) =~= s.subrange(0, s.len() as int));
    }
}

proof fn lemma_trim_start_suffix(s: Seq<char>)
    ensures
        trim_start(s).len() <= s.len(),
        trim_start(s) == s.subrange(s.len() - trim_start(s).len(), s.len() as int),
    decreases s.len(),
{
    if s.len() > 0 && is_space(s[0]) {
        lemma_trim_start_suffix(s.drop_first());
        assert(s.drop_first().subrange(
            s.drop_first().len() - trim_start(s).len(),
            s.drop_first().len() as int,
        ) =~= s.subrange(s.len() - trim_start(s).len(), s.len() as int));
    } else {
        assert(trim_start(s) =~= s.subrange(s.len() - trim_start(s).len(), s.len() as int));
    }
}

/// Law: trimming is idempotent.
pub proof fn lemma_trim_idempotent(s: Seq<char>)
    ensures
        trim(trim(s)) == trim(s),
{
    let u = trim_start(s);
    let t = trim_end(u);
    lemma_trim_start_head(s);
    lemma_trim_end_prefix(u);
    if t.len() > 0 {
        assert(t[0] == u[0]);
        lemma_trim_start_head(t);
        assert(trim_start(t) == t);
        lemma_trim_end_prefix(t);
        assert(trim_end(t) =~= t);
    } else {
        assert(trim(t) =~= t);
    }
}

/// Every character of `trim(s)` occurs in `s`.
proof fn lemma_trim_chars(s: Seq<char>)
    ensures
        trim(s).len() <= s.len(),
        forall|j: int|
            0 <= j < trim(s).len() ==> exists|k: int|
                0 <= k < s.len() && s[k] == #[trigger] trim(s)[j],
{
    let u = trim_start(s);
    lemma_trim_start_suffix(s);
    lemma_trim_end_prefix(u);
    assert forall|j: int| 0 <= j < trim(s).len() implies exists|k: int|
        0 <= k < s.len() && s[k] == #[trigger] trim(s)[j] by {
        let off = s.len() - u.len();
        assert(trim(s)[j] == u[j]);
        assert(u[j] == s[off + j]);
    }
}

proof fn lemma_first_nl_props(s: Seq<char>)
    ensures
        0 <= first_nl(s) <= s.len(),
        forall|j: int| 0 <= j < first_nl(s) ==> #[trigger] s[j] != '\n',
        first_nl(s) < s.len() ==> s[first_nl(s)] == '\n',
    decreases s.len(),
{
    if s.len() > 0 && s[0] != '\n' {
        lemma_first_nl_props(s.drop_first());
        assert forall|j: int| 0 <= j < first_nl(s) implies #[trigger] s[j] != '\n' by {
            if j > 0 {
                assert(s.drop_first()[j - 1] != '\n');
            }
        }
    }
}

/// Every line that the splitter yields is non-blank, already trimmed, and
/// free of line breaks.
pub proof fn lemma_trimmed_lines_elems(s: Seq<char>)
    ensures
        forall|i: int|
            0 <= i < trimmed_lines(s).len() ==> {
                let l = #[trigger] trimmed_lines(s)[i];
                &&& l.len() > 0
                &&& trim(l) == l
                &&& forall|j: int| 0 <= j < l.len() ==> #[trigger] l[j] != '\n'
            },
    decreases s.len(),
{
    if s.len() > 0 {
        let k = first_nl(s);
        lemma_first_nl_props(s);
        let seg = s.subrange(0, k);
        let head = trim(seg);
        lemma_trim_idempotent(seg);
        lemma_trim_chars(seg);
        assert forall|j: int| 0 <= j < head.len() implies #[trigger] head[j] != '\n' by {
            let kk = choose|kk: int| 0 <= kk < seg.len() && seg[kk] == head[j];
            assert(s[kk] != '\n');
        }
        let rest = if 0 <= k && k < s.len() {
            trimmed_lines(s.subrange(k + 1, s.len() as int))
        } else {
            Seq::<Seq<char>>::empty()
        };
        if k < s.len() {
            lemma_trimmed_lines_elems(s.subrange(k + 1, s.len() as int));
        }
        assert forall|i: int| 0 <= i < trimmed_lines(s).len() implies {
            let l = #[trigger] trimmed_lines(s)[i];
            &&& l.len() > 0
            &&& trim(l) == l
            &&& forall|j: int| 0 <= j < l.len() ==> #[trigger] l[j] != '\n'
        } by {
            if k < s.len() {
                if head.len() == 0 {
                    assert(trimmed_lines(s)[i] == rest[i]);
                } else if i > 0 {
                    assert(trimmed_lines(s)[i] == rest[i - 1]);
                } else {
                    assert(trimmed_lines(s)[i] == head);
                }
            } else {
                assert(k == s.len());
                assert(seg =~= s);
                assert(trimmed_lines(s)[i] == head);
            }
        }
    }
}

/// A `first_where` hit is a member of the lines and satisfies the predicate.
proof fn lemma_first_where_mem(lines: Seq<Seq<char>>, f: spec_fn(Seq<char>) -> bool)
    ensures
        first_where(lines, f) matches Some(l) ==> f(l) && exists|i: int|
            0 <= i < lines.len() && #[trigger] lines[i] == l,
    decreases lines.len(),
{
    if lines.len() > 0 && !f(lines[0]) {
        lemma_first_where_mem(lines.drop_first(), f);
        if first_where(lines, f) is Some {
            let l = first_where(lines, f)->0;
            let i = choose|i: int|
                0 <= i < lines.drop_first().len() && #[trigger] lines.drop_first()[i] == l;
            assert(lines[i + 1] == l);
        }
    }
}

/// Law: summary extraction is idempotent.  Whenever the captured text yields
/// at least one usable line, extracting a summary from the extracted summary
/// gives that summary back unchanged.
pub proof fn lemma_summary_idempotent(success: bool, address: Seq<char>, text: Seq<char>)
    requires
        trimmed_lines(text).len() > 0,
    ensures
        spec_summary(success, address, spec_summary(success, address, text)) == spec_summary(
            success,
            address,
            text,
        ),
{
    let lines = trimmed_lines(text);
    lemma_trimmed_lines_elems(text);
    lemma_first_where_mem(lines, |l: Seq<char>| spec_is_success_line(l));
    lemma_first_where_mem(lines, |l: Seq<char>| spec_is_error_line(l));
    lemma_first_where_mem(lines, |l: Seq<char>| !spec_is_header_line(l));
    let picked = spec_pick_line(success, lines);
    assert(picked is Some);
    let l = picked->0;
    assert(exists|i: int| 0 <= i < lines.len() && #[trigger] lines[i] == l);
    let li = choose|i: int| 0 <= i < lines.len() && #[trigger] lines[i] == l;
    assert(l.len() > 0 && trim(l) == l && forall|j: int|
        0 <= j < l.len() ==> #[trigger] l[j] != '\n');
    lemma_first_nl_at(l, l.len() as int);
    assert(trimmed_lines(l) =~~= seq![l]);
    let single = seq![l];
    assert(single.drop_first() =~~= Seq::<Seq<char>>::empty());
    assert(single[0] == l);
    reveal_with_fuel(first_where, 3);
    assert(first_where(single, |ll: Seq<char>| spec_is_success_line(ll))
        == if spec_is_success_line(l) { Some(l) } else { None::<Seq<char>> });
    assert(first_where(single, |ll: Seq<char>| spec_is_error_line(ll))
        == if spec_is_error_line(l) { Some(l) } else { None::<Seq<char>> });
    assert(first_where(single, |ll: Seq<char>| !spec_is_header_line(ll))
        == if !spec_is_header_line(l) { Some(l) } else { None::<Seq<char>> });
    assert(spec_pick_line(success, single) == Some(l));
}

/// The text with surrounding whitespace removed.
pub fn trim_text(s: &str) -> (r: String)
    ensures
        r@ == trim(s@),
{
    let n = s.unicode_len();
    let mut a: usize = 0;
    while a < n && is_space_char(s.get_char(a))
        invariant
            a <= n,
            n == s@.len(),
            forall|j: int| 0 <= j < a ==> is_space(#[trigger] s@[j]),
        decreases n - a,
    {
        a = a + 1;
    }
    let mut b: usize = n;
    while b > a && is_space_char(s.get_char(b - 1))
        invariant
            a <= b <= n,
            n == s@.len(),
            forall|j: int| b <= j < n ==> is_space(#[trigger] s@[j]),
        decreases b,
    {
        b = b - 1;
    }
    proof {
        lemma_trim_is(s@, a as int, b as int);
    }
    s.substring_char(a, b).to_owned()
}

} // verus!
