//! Line handling for the interactive read loop.

use vstd::prelude::*;

verus! {

/// The ASCII whitespace characters that line trimming removes.
pub open spec fn is_line_space(c: char) -> bool {
    c == ' ' || c == '\t' || c == '\n' || c == '\r' || c == '\u{c}'
}

/// Whether `c` is one of the whitespace characters that trimming removes.
fn is_space(c: char) -> (b: bool)
    ensures
        b == is_line_space(c),
{
    c == ' ' || c == '\t' || c == '\n' || c == '\r' || c == '\u{c}'
}

/// `s` with its leading whitespace removed.
pub open spec fn spec_trim_start(s: Seq<char>) -> Seq<char>
    decreases s.len(),
{
    if s.len() > 0 && is_line_space(s[0]) {
        spec_trim_start(s.drop_first())
    } else {
        s
    }
}

/// `s` with its trailing whitespace removed.
pub open spec fn spec_trim_end(s: Seq<char>) -> Seq<char>
    decreases s.len(),
{
    if s.len() > 0 && is_line_space(s[s.len() - 1]) {
        spec_trim_end(s.drop_last())
    } else {
        s
    }
}

/// `s` with both leading and trailing whitespace removed.
pub open spec fn spec_trim(s: Seq<char>) -> Seq<char> {
    spec_trim_end(spec_trim_start(s))
}

/// Skipping the leading run of whitespace, up to the first index `k` that
/// holds none (or the end), is exactly what `spec_trim_start` does.
proof fn lemma_trim_start_skip(s: Seq<char>, k: int)
    requires
        0 <= k <= s.len(),
        forall|i: int| 0 <= i < k ==> is_line_space(#[trigger] s[i]),
        k < s.len() ==> !is_line_space(s[k]),
    ensures
        spec_trim_start(s) == s.subrange(k, s.len() as int),
    decreases k,
{
    if k == 0 {
        assert(s.subrange(0, s.len() as int) =~= s);
    } else {
        let t = s.drop_first();
        assert forall|i: int| 0 <= i < k - 1 implies is_line_space(#[trigger] t[i]) by {
            assert(t[i] == s[i + 1]);
        }
        assert(k - 1 < t.len() ==> !is_line_space(t[k - 1]));
        lemma_trim_start_skip(t, k - 1);
        assert(t.subrange(k - 1, t.len() as int) =~= s.subrange(k, s.len() as int));
    }
}

/// Dropping the trailing run of whitespace, back to the last index `k` that
/// ends a whitespace-free suffix boundary, is exactly what `spec_trim_end`
/// does.
proof fn lemma_trim_end_skip(s: Seq<char>, k: int)
    requires
        0 <= k <= s.len(),
        forall|i: int| k <= i < s.len() ==> is_line_space(#[trigger] s[i]),
        0 < k ==> !is_line_space(s[k - 1]),
    ensures
        spec_trim_end(s) == s.subrange(0, k),
    decreases s.len() - k,
{
    if k == s.len() {
        assert(s.subrange(0, s.len() as int) =~= s);
    } else {
        let t = s.drop_last();
        assert forall|i: int| k <= i < t.len() implies is_line_space(#[trigger] t[i]) by {
            assert(t[i] == s[i]);
        }
        lemma_trim_end_skip(t, k);
        assert(t.subrange(0, k) =~= s.subrange(0, k));
    }
}

/// Returns `line` without its leading and trailing whitespace.
pub fn trim_line(line: &str) -> (trimmed: &str)
    ensures
        trimmed@ == spec_trim(line@),
{
    let n = line.unicode_len();
    let mut start: usize = 0;
    while start < n
        invariant
            n == line@.len(),
            start <= n,
            forall|i: int| 0 <= i < start ==> is_line_space(#[trigger] line@[i]),
        ensures
            start <= n,
            forall|i: int| 0 <= i < start ==> is_line_space(#[trigger] line@[i]),
            start < n ==> !is_line_space(line@[start as int]),
        decreases n - start,
    {
        if !is_space(line.get_char(start)) {
            break ;
        }
        start = start + 1;
    }
    let mut end: usize = n;
    while end > start
        invariant
            n == line@.len(),
            start <= end <= n,
            forall|i: int| end <= i < n ==> is_line_space(#[trigger] line@[i]),
        ensures
            start <= end <= n,
            forall|i: int| end <= i < n ==> is_line_space(#[trigger] line@[i]),
            end > start ==> !is_line_space(line@[end - 1]),
        decreases end,
    {
        if !is_space(line.get_char(end - 1)) {
            break ;
        }
        end = end - 1;
    }
    proof {
        lemma_trim_start_skip(line@, start as int);
        let kept = line@.subrange(start as int, n as int);
        assert forall|i: int| end - start <= i < kept.len() implies is_line_space(
            #[trigger] kept[i],
        ) by {
            assert(kept[i] == line@[start + i]);
        }
        lemma_trim_end_skip(kept, end - start);
        assert(kept.subrange(0, end - start) =~= line@.subrange(start as int, end as int));
    }
    line.substring_char(start, end)
}

/// The code point of `c`, with an ASCII capital letter (code points 65
/// through 90) folded to its lower-case counterpart.
pub open spec fn ascii_lower_value(c: char) -> int {
    if 65 <= c as u32 && c as u32 <= 90 {
        c as u32 + 32
    } else {
        (c as u32) as int
    }
}

/// Folds an ASCII capital letter to lower case; any other character keeps
/// its own code point.
fn ascii_lower(c: char) -> (v: u32)
    ensures
        v as int == ascii_lower_value(c),
{
    let u = c as u32;
    if 65 <= u && u <= 90 {
        u + 32
    } else {
        u
    }
}

/// Whether `a` and `b` are the same characters up to ASCII case.
pub open spec fn eq_ignore_ascii_case_seqs(a: Seq<char>, b: Seq<char>) -> bool {
    a.len() == b.len() && (forall|i: int|
        0 <= i < a.len() ==> ascii_lower_value(#[trigger] a[i]) == ascii_lower_value(b[i]))
}

/// Compares two strings for equality up to ASCII case.
fn str_eq_ignore_ascii_case(a: &str, b: &str) -> (r: bool)
    ensures
        r == eq_ignore_ascii_case_seqs(a@, b@),
{
    let a_len = a.unicode_len();
    let b_len = b.unicode_len();
    if a_len != b_len {
        return false;
    }
    let mut i: usize = 0;
    while i < a_len
        invariant
            a_len == a@.len(),
            a_len == b@.len(),
            i <= a_len,
            forall|j: int|
                0 <= j < i ==> ascii_lower_value(#[trigger] a@[j]) == ascii_lower_value(b@[j]),
        decreases a_len - i,
    {
        if ascii_lower(a.get_char(i)) != ascii_lower(b.get_char(i)) {
            return false;
        }
        i = i + 1;
    }
    true
}

/// Whether a trimmed line asks the loop to stop: it equals "quit" or
/// "exit", in any ASCII casing.
pub open spec fn is_exit_line(s: Seq<char>) -> bool {
    eq_ignore_ascii_case_seqs(s, "quit"@) || eq_ignore_ascii_case_seqs(s, "exit"@)
}

/// Recognizes the exit commands "quit" and "exit", in any ASCII casing.
pub fn is_exit_command(s: &str) -> (r: bool)
    ensures
        r == is_exit_line(s@),
{
    if str_eq_ignore_ascii_case(s, "quit") {
        true
    } else {
        str_eq_ignore_ascii_case(s, "exit")
    }
}

/// What one iteration of the read loop does with one raw input line.
#[derive(Debug)]
pub enum LineAction {
    /// The line was blank: prompt again, print nothing.
    Reprompt,
    /// The line was an exit command: say goodbye and stop the loop.
    Quit,
    /// The line was a candidate description: report the validator's answer,
    /// the generated code or an error message.
    Respond(Result<String, String>),
}

/// Decides what the read loop does with one raw input line.
///
/// The line is trimmed first. A blank line is skipped; "quit" or "exit",
/// in any ASCII casing, stops the loop; anything else is validated, and
/// the validator's answer is reported.
pub fn process_line(line: &str) -> (action: LineAction)
    ensures
        spec_trim(line@).len() == 0 ==> action is Reprompt,
        spec_trim(line@).len() > 0 && is_exit_line(spec_trim(line@)) ==> action is Quit,
        spec_trim(line@).len() > 0 && !is_exit_line(spec_trim(line@)) ==> (action matches LineAction::Respond(r)
            && r matches Err(message) && message@ == crate::validator::validation_message(
            spec_trim(line@),
        )),
{
    let input = trim_line(line);
    if input.is_empty() {
        LineAction::Reprompt
    } else if is_exit_command(input) {
        LineAction::Quit
    } else {
        LineAction::Respond(crate::validator::generate_code(input))
    }
}

} // verus!
