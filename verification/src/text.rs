//! Verified text primitives: character classes, string equality, substring
//! search, line splitting and whitespace trimming, over `Seq<char>` views.

use vstd::prelude::*;

verus! {

/// An ASCII decimal digit. Deliberately ASCII-only: the digits this
/// library reads are process ids in sanitizer output, which the tools
/// emit as ASCII; other Unicode digits are not treated as digits.
pub open spec fn is_digit(c: char) -> bool {
    '0' <= c && c <= '9'
}

/// An ASCII whitespace character: the set trimmed from diagnostic lines
/// and skipped inside report markers. Deliberately ASCII-only: sanitizer
/// and debugger diagnostics are ASCII text, so other Unicode whitespace
/// is left alone.
pub open spec fn is_space(c: char) -> bool {
    c == ' ' || c == '\t' || c == '\n' || c == '\r' || c == '\u{b}' || c == '\u{c}'
}

/// Executable check for [`is_digit`].
pub fn check_digit(c: char) -> (r: bool)
    ensures
        r == is_digit(c),
{
    '0' <= c && c <= '9'
}

/// Executable check for [`is_space`].
pub fn check_space(c: char) -> (r: bool)
    ensures
        r == is_space(c),
{
    c == ' ' || c == '\t' || c == '\n' || c == '\r' || c == '\u{b}' || c == '\u{c}'
}

/// String equality decided character by character.
pub fn str_eq(a: &str, b: &str) -> (r: bool)
    ensures
        r == (a@ == b@),
{
    let la = a.unicode_len();
    let lb = b.unicode_len();
    if la != lb {
        return false;
    }
    let mut i: usize = 0;
    while i < la
        invariant
            la == a@.len(),
            la == b@.len(),
            i <= la,
            forall|j: int| 0 <= j < i ==> a@[j] == b@[j],
        decreases la - i,
    {
        if a.get_char(i) != b.get_char(i) {
            return false;
        }
        i = i + 1;
    }
    proof {
        assert(a@ =~= b@);
    }
    true
}

/// `needle` occurs in `hay` starting at position `i`.
pub open spec fn matches_at(hay: Seq<char>, needle: Seq<char>, i: int) -> bool {
    0 <= i && i + needle.len() <= hay.len() && hay.subrange(i, i + needle.len()) == needle
}

/// `needle` occurs somewhere in `hay`.
pub open spec fn contains_sub(hay: Seq<char>, needle: Seq<char>) -> bool {
    exists|i: int| matches_at(hay, needle, i)
}

/// Executable check that `needle` occurs in `hay` at position `i`.
pub fn match_at(hay: &str, hay_len: usize, i: usize, needle: &str) -> (b: bool)
    requires
        hay_len == hay@.len(),
        i <= hay_len,
    ensures
        b == matches_at(hay@, needle@, i as int),
{
    let n = needle.unicode_len();
    if n > hay_len - i {
        return false;
    }
    let mut k: usize = 0;
    while k < n
        invariant
            n == needle@.len(),
            hay_len == hay@.len(),
            i + n <= hay_len,
            k <= n,
            forall|j: int| 0 <= j < k ==> hay@[i + j] == needle@[j],
        decreases n - k,
    {
        if hay.get_char(i + k) != needle.get_char(k) {
            proof {
                assert(hay@.subrange(i as int, i + needle@.len()) != needle@) by {
                    assert(hay@.subrange(i as int, i + needle@.len())[k as int] == hay@[i + k]);
                }
            }
            return false;
        }
        k = k + 1;
    }
    proof {
        assert(hay@.subrange(i as int, i + needle@.len()) =~= needle@);
    }
    true
}

/// First position at which `needle` occurs in `hay`, if any.
pub fn find_sub(hay: &str, needle: &str) -> (r: Option<usize>)
    ensures
        match r {
            Some(i) => matches_at(hay@, needle@, i as int) && forall|j: int|
                0 <= j < i ==> !matches_at(hay@, needle@, j),
            None => !contains_sub(hay@, needle@),
        },
{
    let hay_len = hay.unicode_len();
    let needle_len = needle.unicode_len();
    if needle_len > hay_len {
        return None;
    }
    if needle_len == 0 {
        proof {
            assert(hay@.subrange(0, 0) =~= needle@);
        }
        return Some(0);
    }
    let mut i: usize = 0;
    while i <= hay_len - needle_len
        invariant
            hay_len == hay@.len(),
            needle_len == needle@.len(),
            1 <= needle_len <= hay_len,
            i <= hay_len - needle_len + 1,
            forall|j: int| 0 <= j < i ==> !matches_at(hay@, needle@, j),
        decreases hay_len - i,
    {
        if match_at(hay, hay_len, i, needle) {
            return Some(i);
        }
        i = i + 1;
    }
    proof {
        assert(forall|j: int| matches_at(hay@, needle@, j) ==> 0 <= j < i);
    }
    None
}

/// `hay` contains `needle` as a substring.
pub fn contains_str(hay: &str, needle: &str) -> (b: bool)
    ensures
        b == contains_sub(hay@, needle@),
{
    find_sub(hay, needle).is_some()
}

/// Index of the first line terminator in `s`, or `s.len()` if there is none.
pub open spec fn first_nl(s: Seq<char>) -> int
    decreases s.len(),
{
    if s.len() == 0 {
        0
    } else if s[0] == '\n' {
        0
    } else {
        1 + first_nl(s.drop_first())
    }
}

/// `first_nl` points at the first `'\n'`, with none before it.
pub proof fn lemma_first_nl(s: Seq<char>)
    ensures
        0 <= first_nl(s) <= s.len(),
        forall|j: int| 0 <= j < first_nl(s) ==> s[j] != '\n',
        first_nl(s) < s.len() ==> s[first_nl(s)] == '\n',
    decreases s.len(),
{
    if s.len() != 0 && s[0] != '\n' {
        lemma_first_nl(s.drop_first());
        assert forall|j: int| 0 <= j < first_nl(s) implies s[j] != '\n' by {
            if j >= 1 {
                assert(s.drop_first()[j - 1] == s[j]);
            }
        }
    }
}

/// `first_nl` is pinned by any position whose prefix is free of `'\n'`.
pub proof fn lemma_first_nl_is(s: Seq<char>, i: int)
    requires
        0 <= i <= s.len(),
        forall|j: int| 0 <= j < i ==> s[j] != '\n',
        i < s.len() ==> s[i] == '\n',
    ensures
        first_nl(s) == i,
    decreases s.len(),
{
    if s.len() != 0 && s[0] != '\n' {
        assert(forall|j: int|
            0 <= j < i - 1 ==> #[trigger] s.drop_first()[j] == s[j + 1]);
        lemma_first_nl_is(s.drop_first(), i - 1);
    }
}

/// The sequence of lines of `s`, split on every `'\n'`: one segment more
/// than there are terminators, so a trailing terminator yields a final
/// empty line.
pub open spec fn lines_of(s: Seq<char>) -> Seq<Seq<char>>
    decreases s.len(),
    via lines_of_decreases
{
    let i = first_nl(s);
    if i == s.len() {
        seq![s]
    } else {
        seq![s.subrange(0, i)] + lines_of(s.subrange(i + 1, s.len() as int))
    }
}

#[via_fn]
proof fn lines_of_decreases(s: Seq<char>) {
    lemma_first_nl(s);
}

/// First position in `[i, len]` at which `p` holds, or `len` (or the start
/// `i` itself where `i` is already past `len`) if none does.
pub open spec fn first_pos(len: int, i: int, p: spec_fn(int) -> bool) -> int
    decreases len - i,
{
    if i < len && !p(i) {
        first_pos(len, i + 1, p)
    } else {
        i
    }
}

/// `first_pos` is pinned by any position `j` with no hit before it.
pub proof fn lemma_first_pos_is(len: int, i: int, j: int, p: spec_fn(int) -> bool)
    requires
        0 <= i <= j <= len,
        forall|k: int| i <= k < j ==> !#[trigger] p(k),
        j < len ==> p(j),
    ensures
        first_pos(len, i, p) == j,
    decreases j - i,
{
    if i < j {
        lemma_first_pos_is(len, i + 1, j, p);
    }
}

/// `first_pos` lies in `[i, len]`, with no hit before it, and a hit at it
/// unless it is `len`.
pub proof fn lemma_first_pos_bounds(len: int, i: int, p: spec_fn(int) -> bool)
    requires
        0 <= i <= len,
    ensures
        i <= first_pos(len, i, p) <= len,
        forall|k: int| i <= k < first_pos(len, i, p) ==> !#[trigger] p(k),
        first_pos(len, i, p) < len ==> p(first_pos(len, i, p)),
    decreases len - i,
{
    if i < len && !p(i) {
        lemma_first_pos_bounds(len, i + 1, p);
    }
}

/// `s` with its leading whitespace removed.
pub open spec fn trim_start(s: Seq<char>) -> Seq<char>
    decreases s.len(),
{
    if s.len() == 0 {
        s
    } else if is_space(s[0]) {
        trim_start(s.drop_first())
    } else {
        s
    }
}

/// `s` with its trailing whitespace removed.
pub open spec fn trim_end(s: Seq<char>) -> Seq<char>
    decreases s.len(),
{
    if s.len() == 0 {
        s
    } else if is_space(s[s.len() - 1]) {
        trim_end(s.drop_last())
    } else {
        s
    }
}

/// `s` with surrounding whitespace removed.
pub open spec fn trim_spec(s: Seq<char>) -> Seq<char> {
    trim_end(trim_start(s))
}

/// `trim_start` drops exactly the leading run of whitespace.
proof fn lemma_trim_start_is(s: Seq<char>, i: int)
    requires
        0 <= i <= s.len(),
        forall|j: int| 0 <= j < i ==> is_space(s[j]),
        i < s.len() ==> !is_space(s[i]),
    ensures
        trim_start(s) == s.subrange(i, s.len() as int),
    decreases s.len(),
{
    if s.len() == 0 {
        assert(s.subrange(0, 0) =~= s);
    } else if is_space(s[0]) {
        assert(forall|j: int| 0 <= j < i - 1 ==> is_space(#[trigger] s.drop_first()[j]));
        lemma_trim_start_is(s.drop_first(), i - 1);
        assert(s.drop_first().subrange(i - 1, s.drop_first().len() as int) =~= s.subrange(
            i,
            s.len() as int,
        ));
    } else {
        assert(i == 0);
        assert(s.subrange(0, s.len() as int) =~= s);
    }
}

/// `trim_end` drops exactly the trailing run of whitespace.
proof fn lemma_trim_end_is(s: Seq<char>, i: int)
    requires
        0 <= i <= s.len(),
        forall|j: int| i <= j < s.len() ==> is_space(s[j]),
        i > 0 ==> !is_space(s[i - 1]),
    ensures
        trim_end(s) == s.subrange(0, i),
    decreases s.len(),
{
    if s.len() == 0 {
        assert(s.subrange(0, 0) =~= s);
    } else if is_space(s[s.len() - 1]) {
        assert(forall|j: int| i <= j < s.drop_last().len() ==> is_space(
            #[trigger] s.drop_last()[j],
        ));
        lemma_trim_end_is(s.drop_last(), i);
        assert(s.drop_last().subrange(0, i) =~= s.subrange(0, i));
    } else {
        assert(i == s.len());
        assert(s.subrange(0, s.len() as int) =~= s);
    }
}

/// Remove surrounding whitespace from `s`.
pub fn trim_str(s: &str) -> (r: String)
    ensures
        r@ == trim_spec(s@),
{
    let len = s.unicode_len();
    let mut a: usize = 0;
    while a < len && check_space(s.get_char(a))
        invariant
            len == s@.len(),
            a <= len,
            forall|j: int| 0 <= j < a ==> is_space(s@[j]),
        decreases len - a,
    {
        a = a + 1;
    }
    proof {
        lemma_trim_start_is(s@, a as int);
    }
    let ghost mid = s@.subrange(a as int, len as int);
    let mut b: usize = len;
    while b > a && check_space(s.get_char(b - 1))
        invariant
            len == s@.len(),
            a <= b <= len,
            forall|j: int| b <= j < len ==> is_space(s@[j]),
        decreases b,
    {
        b = b - 1;
    }
    proof {
        assert(forall|j: int| b - a <= j < mid.len() ==> is_space(#[trigger] mid[j]));
        lemma_trim_end_is(mid, b - a);
    }
    let r = s.substring_char(a, b);
    proof {
        assert(mid.subrange(0, b - a) =~= s@.subrange(a as int, b as int));
    }
    r.to_owned()
}

/// Split `text` into its lines, preserving order and content.
pub fn split_lines(text: &str) -> (lines: Vec<String>)
    ensures
        lines.deep_view() == lines_of(text@),
{
    let len = text.unicode_len();
    let mut lines: Vec<String> = Vec::new();
    let mut pos: usize = 0;
    let mut done = false;
    proof {
        assert(lines.deep_view() =~= Seq::<Seq<char>>::empty());
        assert(text@.subrange(0, len as int) =~= text@);
    }
    while !done
        invariant
            len == text@.len(),
            pos <= len,
            !done ==> lines.deep_view() + lines_of(
                text@.subrange(pos as int, len as int),
            ) =~= lines_of(text@),
            done ==> lines.deep_view() =~= lines_of(text@),
        decreases len - pos, (if done { 0int } else { 1int }),
    {
        let ghost rest = text@.subrange(pos as int, len as int);
        let ghost dv0 = lines.deep_view();
        // Find the next terminator at or after `pos`.
        let mut j: usize = pos;
        while j < len
            invariant
                len == text@.len(),
                pos <= j <= len,
                forall|k: int| pos <= k < j ==> text@[k] != '\n',
            ensures
                pos <= j <= len,
                forall|k: int| pos <= k < j ==> text@[k] != '\n',
                j < len ==> text@[j as int] == '\n',
            decreases len - j,
        {
            if text.get_char(j) == '\n' {
                break;
            }
            j = j + 1;
        }
        proof {
            assert(forall|k: int| 0 <= k < j - pos ==> #[trigger] rest[k] != '\n');
            lemma_first_nl_is(rest, j - pos);
        }
        let seg = text.substring_char(pos, j);
        let seg_string = seg.to_owned();
        lines.push(seg_string);
        proof {
            assert(seg@ =~= rest.subrange(0, j - pos));
            assert(lines.deep_view() =~= dv0.push(seg@));
        }
        if j == len {
            proof {
                assert(lines_of(rest) =~= seq![rest]);
                assert(rest.subrange(0, j - pos) =~= rest);
                assert(lines.deep_view() =~= lines_of(text@));
            }
            done = true;
        } else {
            proof {
                assert(lines_of(rest) =~= seq![rest.subrange(0, j - pos)] + lines_of(
                    rest.subrange(j - pos + 1, rest.len() as int),
                ));
                assert(rest.subrange(j - pos + 1, rest.len() as int) =~= text@.subrange(
                    j + 1,
                    len as int,
                ));
                assert(lines.deep_view() + lines_of(text@.subrange(j + 1, len as int))
                    =~= lines_of(text@));
            }
            pos = j + 1;
        }
    }
    lines
}

/// Equality of two line sequences, decided line by line.
pub fn vec_str_eq(a: &Vec<String>, b: &Vec<String>) -> (r: bool)
    ensures
        r == (a.deep_view() == b.deep_view()),
{
    let n = a.len();
    if n != b.len() {
        proof {
            assert(a.deep_view().len() == a@.len());
            assert(b.deep_view().len() == b@.len());
        }
        return false;
    }
    let mut i: usize = 0;
    while i < n
        invariant
            n == a@.len(),
            n == b@.len(),
            i <= n,
            forall|j: int| 0 <= j < i ==> a.deep_view()[j] == b.deep_view()[j],
        decreases n - i,
    {
        if !str_eq(a[i].as_str(), b[i].as_str()) {
            proof {
                assert(a.deep_view()[i as int] == a@[i as int]@);
                assert(b.deep_view()[i as int] == b@[i as int]@);
            }
            return false;
        }
        proof {
            assert(a.deep_view()[i as int] == a@[i as int]@);
            assert(b.deep_view()[i as int] == b@[i as int]@);
        }
        i = i + 1;
    }
    proof {
        assert(a.deep_view() =~= b.deep_view());
    }
    true
}

/// Copy the lines of `lines` with indices in `[a, b)`, in order.
pub fn slice_range(lines: &Vec<String>, a: usize, b: usize) -> (v: Vec<String>)
    requires
        a <= b <= lines@.len(),
    ensures
        v.deep_view() == lines.deep_view().subrange(a as int, b as int),
{
    let mut v: Vec<String> = Vec::new();
    let mut i: usize = a;
    while i < b
        invariant
            a <= i <= b <= lines@.len(),
            v.deep_view() =~= lines.deep_view().subrange(a as int, i as int),
        decreases b - i,
    {
        let ghost dv0 = v.deep_view();
        v.push(lines[i].clone());
        proof {
            assert(v.deep_view() =~= dv0.push(lines@[i as int]@));
            assert(v.deep_view() =~= lines.deep_view().subrange(a as int, i + 1));
        }
        i = i + 1;
    }
    proof {
        assert(v.deep_view() =~= lines.deep_view().subrange(a as int, b as int));
    }
    v
}

} // verus!
