//! Diagnostic ingester: locate the sanitizer report inside captured
//! standard-error text and parse its summary and access-direction lines.

use vstd::prelude::*;

use crate::text::{
    check_digit, check_space, contains_sub, first_pos, is_digit, is_space,
    lemma_first_pos_bounds, lemma_first_pos_is, match_at, matches_at,
};

verus! {

/// End of the run of decimal digits that starts at `i`.
pub open spec fn digits_end(s: Seq<char>, i: int) -> int {
    first_pos(s.len() as int, i, |k: int| !is_digit(s[k]))
}

/// End of the run of whitespace that starts at `i`.
pub open spec fn spaces_end(s: Seq<char>, i: int) -> int {
    first_pos(s.len() as int, i, |k: int| !is_space(s[k]))
}

/// A sanitizer-report marker occurs in `s` at position `i`: a process id of
/// two or more digits between `==` delimiters, optional whitespace, then
/// `ERROR: ` and one of the three tool names followed by a colon.
pub open spec fn marker_at(s: Seq<char>, i: int) -> bool {
    let d = digits_end(s, i + 2);
    let w = spaces_end(s, d + 2);
    &&& matches_at(s, "=="@, i)
    &&& d >= i + 4
    &&& matches_at(s, "=="@, d)
    &&& matches_at(s, "ERROR: "@, w)
    &&& (matches_at(s, "LeakSanitizer:"@, w + 7) || matches_at(s, "AddressSanitizer:"@, w + 7)
        || matches_at(s, "libFuzzer:"@, w + 7))
}

/// A line opens a sanitizer report if a marker occurs anywhere in it.
pub open spec fn is_report_start(line: Seq<char>) -> bool {
    exists|i: int| marker_at(line, i)
}

/// A line that opens a sanitizer report is not empty.
pub proof fn lemma_report_start_nonempty(line: Seq<char>)
    requires
        is_report_start(line),
    ensures
        line.len() > 0,
{
    reveal_strlit("==");
    let i = choose|i: int| marker_at(line, i);
    assert(matches_at(line, "=="@, i));
}

/// Executable check for a marker at position `i`.
fn marker_check(line: &str, len: usize, i: usize) -> (b: bool)
    requires
        len == line@.len(),
        i <= len,
    ensures
        b == marker_at(line@, i as int),
{
    proof {
        reveal_strlit("==");
        reveal_strlit("ERROR: ");
    }
    if !match_at(line, len, i, "==") {
        return false;
    }
    let mut d: usize = i + 2;
    while d < len && check_digit(line.get_char(d))
        invariant
            len == line@.len(),
            i + 2 <= d <= len,
            forall|k: int| i + 2 <= k < d ==> is_digit(line@[k]),
        decreases len - d,
    {
        d = d + 1;
    }
    proof {
        lemma_first_pos_is(
            len as int,
            i + 2,
            d as int,
            |k: int| !is_digit(line@[k]),
        );
    }
    if d - i < 4 {
        return false;
    }
    if !match_at(line, len, d, "==") {
        return false;
    }
    let mut w: usize = d + 2;
    while w < len && check_space(line.get_char(w))
        invariant
            len == line@.len(),
            d + 2 <= w <= len,
            forall|k: int| d + 2 <= k < w ==> is_space(line@[k]),
        decreases len - w,
    {
        w = w + 1;
    }
    proof {
        lemma_first_pos_is(
            len as int,
            d + 2,
            w as int,
            |k: int| !is_space(line@[k]),
        );
    }
    if !match_at(line, len, w, "ERROR: ") {
        return false;
    }
    let t = w + 7;
    if match_at(line, len, t, "LeakSanitizer:") {
        return true;
    }
    if match_at(line, len, t, "AddressSanitizer:") {
        return true;
    }
    match_at(line, len, t, "libFuzzer:")
}

/// Does a sanitizer-report marker occur anywhere in `line`?
pub fn line_is_report_start(line: &str) -> (b: bool)
    ensures
        b == is_report_start(line@),
{
    let len = line.unicode_len();
    let mut i: usize = 0;
    while i < len
        invariant
            len == line@.len(),
            i <= len,
            forall|j: int| 0 <= j < i ==> !marker_at(line@, j),
        decreases len - i,
    {
        if marker_check(line, len, i) {
            return true;
        }
        i = i + 1;
    }
    proof {
        reveal_strlit("==");
        assert forall|j: int| !marker_at(line@, j) by {
            if 0 <= j < len {
            } else {
                assert(!matches_at(line@, "=="@, j));
            }
        }
    }
    false
}

/// End of the run of plain spaces that starts at `i`.
pub open spec fn blanks_end(s: Seq<char>, i: int) -> int {
    first_pos(s.len() as int, i, |k: int| s[k] != ' ')
}

/// End of the run of non-whitespace characters that starts at `i`.
pub open spec fn word_end(s: Seq<char>, i: int) -> int {
    first_pos(s.len() as int, i, |k: int| is_space(s[k]))
}

/// Start of the captured check name of a summary occurring at `i`.
pub open spec fn summary_capture_start(l: Seq<char>, i: int) -> int {
    let w = blanks_end(l, i + 8);
    if matches_at(l, "AddressSanitizer: "@, w) {
        w + 18
    } else {
        w + 11
    }
}

/// A summary occurs in `l` at position `i`: the word `SUMMARY:`, optional
/// spaces, a tool name with trailing colon and space, then a non-empty
/// whitespace-free check name.
pub open spec fn summary_at(l: Seq<char>, i: int) -> bool {
    let w = blanks_end(l, i + 8);
    let c0 = summary_capture_start(l, i);
    &&& matches_at(l, "SUMMARY:"@, i)
    &&& (matches_at(l, "AddressSanitizer: "@, w) || matches_at(l, "libFuzzer: "@, w))
    &&& c0 < l.len()
    &&& !is_space(l[c0])
}

/// The summary at `i` names libFuzzer rather than AddressSanitizer.
pub open spec fn summary_is_fuzzer(l: Seq<char>, i: int) -> bool {
    !matches_at(l, "AddressSanitizer: "@, blanks_end(l, i + 8))
}

/// The check name captured by the summary at `i`.
pub open spec fn summary_capture(l: Seq<char>, i: int) -> Seq<char> {
    let c0 = summary_capture_start(l, i);
    l.subrange(c0, word_end(l, c0))
}

/// The summary parsed from the first position of `l` holding one: whether
/// the tool is libFuzzer, and the captured check name.
pub open spec fn line_summary(l: Seq<char>) -> Option<(bool, Seq<char>)> {
    let i = first_pos(l.len() as int, 0, |k: int| summary_at(l, k));
    if i < l.len() {
        Some((summary_is_fuzzer(l, i), summary_capture(l, i)))
    } else {
        None
    }
}

/// Executable parse of a summary at position `i`.
fn summary_check(line: &str, len: usize, i: usize) -> (r: Option<(bool, String)>)
    requires
        len == line@.len(),
        i <= len,
    ensures
        match r {
            Some((fz, cap)) => summary_at(line@, i as int) && fz == summary_is_fuzzer(
                line@,
                i as int,
            ) && cap@ == summary_capture(line@, i as int),
            None => !summary_at(line@, i as int),
        },
{
    proof {
        reveal_strlit("SUMMARY:");
        reveal_strlit("AddressSanitizer: ");
        reveal_strlit("libFuzzer: ");
    }
    if !match_at(line, len, i, "SUMMARY:") {
        return None;
    }
    let mut w: usize = i + 8;
    while w < len && line.get_char(w) == ' '
        invariant
            len == line@.len(),
            i + 8 <= w <= len,
            forall|k: int| i + 8 <= k < w ==> line@[k] == ' ',
        decreases len - w,
    {
        w = w + 1;
    }
    proof {
        lemma_first_pos_is(len as int, i + 8, w as int, |k: int| line@[k] != ' ');
    }
    let fz: bool;
    let c0: usize;
    if match_at(line, len, w, "AddressSanitizer: ") {
        fz = false;
        c0 = w + 18;
    } else if match_at(line, len, w, "libFuzzer: ") {
        fz = true;
        c0 = w + 11;
    } else {
        return None;
    }
    if c0 >= len {
        return None;
    }
    if check_space(line.get_char(c0)) {
        return None;
    }
    let mut c1: usize = c0;
    while c1 < len && !check_space(line.get_char(c1))
        invariant
            len == line@.len(),
            c0 <= c1 <= len,
            forall|k: int| c0 <= k < c1 ==> !is_space(line@[k]),
        decreases len - c1,
    {
        c1 = c1 + 1;
    }
    proof {
        lemma_first_pos_is(len as int, c0 as int, c1 as int, |k: int| is_space(line@[k]));
    }
    let cap = line.substring_char(c0, c1).to_owned();
    Some((fz, cap))
}

/// Parse the first summary held by `line`, if any.
pub fn parse_summary_line(line: &str) -> (r: Option<(bool, String)>)
    ensures
        match r {
            Some((fz, cap)) => line_summary(line@) == Some((fz, cap@)),
            None => line_summary(line@) is None,
        },
{
    let len = line.unicode_len();
    let mut i: usize = 0;
    while i < len
        invariant
            len == line@.len(),
            i <= len,
            forall|j: int| 0 <= j < i ==> !summary_at(line@, j),
        decreases len - i,
    {
        let parsed = summary_check(line, len, i);
        if parsed.is_some() {
            proof {
                lemma_first_pos_is(len as int, 0, i as int, |k: int| summary_at(line@, k));
            }
            return parsed;
        }
        i = i + 1;
    }
    proof {
        lemma_first_pos_is(len as int, 0, len as int, |k: int| summary_at(line@, k));
    }
    None
}

/// Index of the first line holding a summary, or the line count.
pub open spec fn summary_line_index(dv: Seq<Seq<char>>) -> int {
    first_pos(dv.len() as int, 0, |k: int| line_summary(dv[k]) is Some)
}

/// The summary parsed from the first line of `dv` holding one.
pub open spec fn summary_of(dv: Seq<Seq<char>>) -> Option<(bool, Seq<char>)> {
    let i = summary_line_index(dv);
    if i < dv.len() {
        line_summary(dv[i])
    } else {
        None
    }
}

/// Find and parse the first summary among `lines`.
pub fn find_summary(lines: &Vec<String>) -> (r: Option<(bool, String)>)
    ensures
        match r {
            Some((fz, cap)) => summary_of(lines.deep_view()) == Some((fz, cap@)),
            None => summary_of(lines.deep_view()) is None,
        },
{
    let ghost dv = lines.deep_view();
    let n = lines.len();
    let mut i: usize = 0;
    while i < n
        invariant
            dv == lines.deep_view(),
            n == dv.len(),
            i <= n,
            forall|j: int| 0 <= j < i ==> line_summary(dv[j]) is None,
        decreases n - i,
    {
        let parsed = parse_summary_line(lines[i].as_str());
        if parsed.is_some() {
            proof {
                lemma_first_pos_is(n as int, 0, i as int, |k: int| line_summary(dv[k]) is Some);
            }
            return parsed;
        }
        i = i + 1;
    }
    proof {
        lemma_first_pos_is(n as int, 0, n as int, |k: int| line_summary(dv[k]) is Some);
    }
    None
}

/// An access-direction token occurs in `l` at position `i`.
pub open spec fn access_token_at(l: Seq<char>, i: int) -> bool {
    matches_at(l, "READ"@, i) || matches_at(l, "WRITE"@, i) || matches_at(l, "ACCESS"@, i)
}

/// The access-direction token at the first position of `l` holding one.
pub open spec fn access_of(l: Seq<char>) -> Option<Seq<char>> {
    let i = first_pos(l.len() as int, 0, |k: int| access_token_at(l, k));
    if i < l.len() {
        if matches_at(l, "READ"@, i) {
            Some("READ"@)
        } else if matches_at(l, "WRITE"@, i) {
            Some("WRITE"@)
        } else {
            Some("ACCESS"@)
        }
    } else {
        None
    }
}

/// Find the first `READ`/`WRITE`/`ACCESS` token held by `line`.
pub fn find_access(line: &str) -> (r: Option<&str>)
    ensures
        crate::execution_class::rw_view(r) == access_of(line@),
{
    let len = line.unicode_len();
    let mut i: usize = 0;
    while i < len
        invariant
            len == line@.len(),
            i <= len,
            forall|j: int| 0 <= j < i ==> !access_token_at(line@, j),
        decreases len - i,
    {
        if match_at(line, len, i, "READ") {
            proof {
                lemma_first_pos_is(len as int, 0, i as int, |k: int| access_token_at(line@, k));
            }
            return Some("READ");
        }
        if match_at(line, len, i, "WRITE") {
            proof {
                lemma_first_pos_is(len as int, 0, i as int, |k: int| access_token_at(line@, k));
            }
            return Some("WRITE");
        }
        if match_at(line, len, i, "ACCESS") {
            proof {
                lemma_first_pos_is(len as int, 0, i as int, |k: int| access_token_at(line@, k));
            }
            return Some("ACCESS");
        }
        i = i + 1;
    }
    proof {
        lemma_first_pos_is(len as int, 0, len as int, |k: int| access_token_at(line@, k));
    }
    None
}

/// Index of the first line that opens a sanitizer report, or the line count.
pub open spec fn report_start_index(dv: Seq<Seq<char>>) -> int {
    first_pos(dv.len() as int, 0, |k: int| is_report_start(dv[k]))
}

/// The captured text holds a sanitizer report.
pub open spec fn has_report(dv: Seq<Seq<char>>) -> bool {
    report_start_index(dv) < dv.len()
}

/// Find the first line that opens a sanitizer report.
pub fn find_report_start(lines: &Vec<String>) -> (r: Option<usize>)
    ensures
        ({
            let dv = lines.deep_view();
            match r {
                Some(i) => i as int == report_start_index(dv) && has_report(dv),
                None => !has_report(dv),
            }
        }),
{
    let ghost dv = lines.deep_view();
    let n = lines.len();
    let mut i: usize = 0;
    while i < n
        invariant
            dv == lines.deep_view(),
            n == dv.len(),
            i <= n,
            forall|j: int| 0 <= j < i ==> !is_report_start(dv[j]),
        decreases n - i,
    {
        if line_is_report_start(lines[i].as_str()) {
            proof {
                lemma_first_pos_is(n as int, 0, i as int, |k: int| is_report_start(dv[k]));
            }
            return Some(i);
        }
        i = i + 1;
    }
    proof {
        lemma_first_pos_is(n as int, 0, n as int, |k: int| is_report_start(dv[k]));
    }
    None
}

/// Index of the last non-empty line, or `-1` if every line is empty.
pub open spec fn report_end_index(dv: Seq<Seq<char>>) -> int
    decreases dv.len(),
{
    if dv.len() == 0 {
        -1
    } else if dv[dv.len() - 1].len() != 0 {
        dv.len() - 1
    } else {
        report_end_index(dv.drop_last())
    }
}

/// `report_end_index` is pinned by a non-empty line followed only by
/// empty ones.
pub proof fn lemma_report_end_is(dv: Seq<Seq<char>>, j: int)
    requires
        0 <= j < dv.len(),
        dv[j].len() != 0,
        forall|k: int| j < k < dv.len() ==> dv[k].len() == 0,
    ensures
        report_end_index(dv) == j,
    decreases dv.len(),
{
    if j < dv.len() - 1 {
        assert(forall|k: int|
            j < k < dv.drop_last().len() ==> #[trigger] dv.drop_last()[k].len() == 0);
        lemma_report_end_is(dv.drop_last(), j);
    }
}

/// The last non-empty line is never before any non-empty line.
pub proof fn lemma_report_end_lower(dv: Seq<Seq<char>>, k: int)
    requires
        0 <= k < dv.len(),
        dv[k].len() != 0,
    ensures
        report_end_index(dv) >= k,
    decreases dv.len(),
{
    if dv[dv.len() - 1].len() == 0 {
        lemma_report_end_lower(dv.drop_last(), k);
    }
}

/// `report_end_index` stays below the line count.
pub proof fn lemma_report_end_upper(dv: Seq<Seq<char>>)
    ensures
        report_end_index(dv) < dv.len(),
    decreases dv.len(),
{
    if dv.len() > 0 && dv[dv.len() - 1].len() == 0 {
        lemma_report_end_upper(dv.drop_last());
    }
}

/// If every line is empty, `report_end_index` is `-1`.
pub proof fn lemma_report_end_none(dv: Seq<Seq<char>>)
    requires
        forall|k: int| 0 <= k < dv.len() ==> dv[k].len() == 0,
    ensures
        report_end_index(dv) == -1,
    decreases dv.len(),
{
    if dv.len() > 0 {
        lemma_report_end_none(dv.drop_last());
    }
}

/// Find the last non-empty line.
pub fn find_report_end(lines: &Vec<String>) -> (r: Option<usize>)
    ensures
        ({
            let dv = lines.deep_view();
            match r {
                Some(e) => e as int == report_end_index(dv),
                None => report_end_index(dv) == -1,
            }
        }),
{
    let ghost dv = lines.deep_view();
    let n = lines.len();
    let mut j: usize = n;
    while j > 0
        invariant
            dv == lines.deep_view(),
            n == dv.len(),
            j <= n,
            forall|k: int| j <= k < n ==> dv[k].len() == 0,
        decreases j,
    {
        j = j - 1;
        if !lines[j].as_str().is_empty() {
            proof {
                lemma_report_end_is(dv, j as int);
            }
            return Some(j);
        }
    }
    proof {
        lemma_report_end_none(dv);
    }
    None
}

} // verus!
