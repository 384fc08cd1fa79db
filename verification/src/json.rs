//! Serialization boundary: render a crash report as stable, pretty-printed
//! JSON text, and read such text back. Every field is always present; empty
//! sequences stay empty arrays.

use vstd::prelude::*;

use crate::execution_class::{ClassSpec, ExecutionClass};
use crate::report::{CrashReport, ReportSpec};
use crate::text::{match_at, matches_at};

verus! {

/// Characters that are escaped inside a JSON string.
pub open spec fn needs_escape(c: char) -> bool {
    c == '\\' || c == '"' || c == '\n' || c == '\r' || c == '\t'
}

/// The encoding of one character inside a JSON string.
pub open spec fn escape_char(c: char) -> Seq<char> {
    if c == '\\' {
        seq!['\\', '\\']
    } else if c == '"' {
        seq!['\\', '"']
    } else if c == '\n' {
        seq!['\\', 'n']
    } else if c == '\r' {
        seq!['\\', 'r']
    } else if c == '\t' {
        seq!['\\', 't']
    } else {
        seq![c]
    }
}

/// The body of a JSON string: every character encoded.
pub open spec fn escape(s: Seq<char>) -> Seq<char>
    decreases s.len(),
{
    if s.len() == 0 {
        Seq::empty()
    } else {
        escape_char(s[0]) + escape(s.drop_first())
    }
}

/// Escaping distributes over concatenation.
pub proof fn lemma_escape_append(a: Seq<char>, b: Seq<char>)
    ensures
        escape(a + b) == escape(a) + escape(b),
    decreases a.len(),
{
    if a.len() == 0 {
        assert(a + b =~= b);
        assert(escape(a) + escape(b) =~= escape(b));
    } else {
        assert((a + b).drop_first() =~= a.drop_first() + b);
        lemma_escape_append(a.drop_first(), b);
        assert(escape(a + b) =~= escape(a) + escape(b));
    }
}

/// The character a two-character escape stands for.
pub open spec fn unescape_pair(d: char) -> char {
    if d == '\\' {
        '\\'
    } else if d == '"' {
        '"'
    } else if d == 'n' {
        '\n'
    } else if d == 'r' {
        '\r'
    } else if d == 't' {
        '\t'
    } else {
        d
    }
}

/// Decode a JSON string body: each backslash pair stands for one
/// character, every other character stands for itself.
pub open spec fn unescape(s: Seq<char>) -> Seq<char>
    decreases s.len(),
{
    if s.len() == 0 {
        Seq::empty()
    } else if s[0] == '\\' && s.len() >= 2 {
        seq![unescape_pair(s[1])] + unescape(s.subrange(2, s.len() as int))
    } else {
        seq![s[0]] + unescape(s.drop_first())
    }
}

/// Law: decoding inverts encoding — every string survives the round trip
/// through its escaped form.
pub proof fn lemma_unescape_escape(s: Seq<char>)
    ensures
        unescape(escape(s)) == s,
    decreases s.len(),
{
    if s.len() != 0 {
        lemma_unescape_escape(s.drop_first());
        let c = s[0];
        let e = escape(s);
        if needs_escape(c) {
            assert(e[0] == '\\');
            assert(e.subrange(2, e.len() as int) =~= escape(s.drop_first()));
            assert(unescape_pair(e[1]) == c);
            assert(unescape(e) =~= s);
        } else {
            assert(e[0] == c);
            assert(e.drop_first() =~= escape(s.drop_first()));
            assert(unescape(e) =~= s);
        }
    }
}

/// A whole JSON string: the escaped body between double quotes.
pub open spec fn quote(s: Seq<char>) -> Seq<char> {
    seq!['"'] + escape(s) + seq!['"']
}

/// Array items, four-space indented, every item but the last followed by a
/// comma; each on its own line.
pub open spec fn arr_items(lines: Seq<Seq<char>>) -> Seq<char>
    decreases lines.len(),
{
    if lines.len() == 0 {
        Seq::empty()
    } else if lines.len() == 1 {
        "    "@ + quote(lines[0]) + "\n"@
    } else {
        "    "@ + quote(lines[0]) + ",\n"@ + arr_items(lines.drop_first())
    }
}

/// A JSON array of strings: `[]` when empty, else one item per line.
pub open spec fn arr_of(lines: Seq<Seq<char>>) -> Seq<char> {
    if lines.len() == 0 {
        "[]"@
    } else {
        "[\n"@ + arr_items(lines) + "  ]"@
    }
}

/// Equal sequences with a common prefix have equal remainders.
proof fn lemma_cancel_prefix(p: Seq<char>, x: Seq<char>, y: Seq<char>)
    requires
        p + x == p + y,
    ensures
        x == y,
{
    assert((p + x).len() == p.len() + x.len());
    assert((p + y).len() == p.len() + y.len());
    assert(x.len() == y.len());
    assert forall|k: int| 0 <= k < x.len() implies x[k] == y[k] by {
        assert((p + x)[p.len() + k] == x[k]);
        assert((p + y)[p.len() + k] == y[k]);
    }
    assert(x =~= y);
}

/// The escaped body of a string, closed by its quote, determines the
/// string and whatever follows: escaping is a prefix code.
proof fn lemma_escape_quote_prefix(a: Seq<char>, b: Seq<char>, x: Seq<char>, y: Seq<char>)
    requires
        escape(a) + (seq!['"'] + x) == escape(b) + (seq!['"'] + y),
    ensures
        a == b,
        x == y,
    decreases a.len(),
{
    let la = escape(a) + (seq!['"'] + x);
    let lb = escape(b) + (seq!['"'] + y);
    if a.len() == 0 && b.len() == 0 {
        assert(escape(a) =~= Seq::<char>::empty());
        assert(escape(b) =~= Seq::<char>::empty());
        assert(seq!['"'] + x =~= la);
        assert(seq!['"'] + y =~= lb);
        lemma_cancel_prefix(seq!['"'], x, y);
        assert(a =~= b);
    } else if a.len() == 0 {
        assert(escape(a) =~= Seq::<char>::empty());
        assert(la[0] == '"');
        let d = b[0];
        assert(escape(b) == escape_char(d) + escape(b.drop_first()));
        assert(lb[0] == escape_char(d)[0]);
        if needs_escape(d) {
            assert(escape_char(d)[0] == '\\');
        } else {
            assert(escape_char(d)[0] == d && d != '"');
        }
        assert(false);
    } else if b.len() == 0 {
        assert(escape(b) =~= Seq::<char>::empty());
        assert(lb[0] == '"');
        let c = a[0];
        assert(escape(a) == escape_char(c) + escape(a.drop_first()));
        assert(la[0] == escape_char(c)[0]);
        if needs_escape(c) {
            assert(escape_char(c)[0] == '\\');
        } else {
            assert(escape_char(c)[0] == c && c != '"');
        }
        assert(false);
    } else {
        let c = a[0];
        let d = b[0];
        assert(escape(a) == escape_char(c) + escape(a.drop_first()));
        assert(escape(b) == escape_char(d) + escape(b.drop_first()));
        assert(la[0] == escape_char(c)[0]);
        assert(lb[0] == escape_char(d)[0]);
        if needs_escape(c) && needs_escape(d) {
            assert(la[1] == escape_char(c)[1]);
            assert(lb[1] == escape_char(d)[1]);
            assert(c == d);
        } else if needs_escape(c) {
            assert(escape_char(c)[0] == '\\');
            assert(escape_char(d)[0] == d && d != '\\');
            assert(false);
        } else if needs_escape(d) {
            assert(escape_char(d)[0] == '\\');
            assert(escape_char(c)[0] == c && c != '\\');
            assert(false);
        } else {
            assert(c == d);
        }
        let ra = escape(a.drop_first()) + (seq!['"'] + x);
        let rb = escape(b.drop_first()) + (seq!['"'] + y);
        assert(la =~= escape_char(c) + ra);
        assert(lb =~= escape_char(d) + rb);
        assert(escape_char(c) + ra == escape_char(c) + rb);
        lemma_cancel_prefix(escape_char(c), ra, rb);
        lemma_escape_quote_prefix(a.drop_first(), b.drop_first(), x, y);
        assert forall|k: int| 0 <= k < a.len() implies a[k] == b[k] by {
            if k >= 1 {
                assert(a.drop_first()[k - 1] == b.drop_first()[k - 1]);
            }
        }
        assert(a =~= b);
    }
}

/// Whatever follows a partial escaped body inside a whole JSON string is
/// itself well formed: next comes the closing quote, a two-character
/// escape, or one plain character — never a bare control character.
proof fn lemma_escape_continuation(vb: Seq<char>, v: Seq<char>, x: Seq<char>, t: Seq<char>)
    requires
        escape(v) + (seq!['"'] + x) == escape(vb) + t,
    ensures
        t.len() >= 1,
        t[0] == '\\' ==> t.len() >= 2 && (t[1] == '\\' || t[1] == '"' || t[1] == 'n' || t[1]
            == 'r' || t[1] == 't'),
        t[0] != '\n' && t[0] != '\r' && t[0] != '\t',
    decreases vb.len(),
{
    let l = escape(v) + (seq!['"'] + x);
    if vb.len() == 0 {
        assert(escape(vb) =~= Seq::<char>::empty());
        assert(t =~= l);
        if v.len() == 0 {
            assert(escape(v) =~= Seq::<char>::empty());
            assert(t[0] == '"');
        } else {
            let c = v[0];
            assert(escape(v) == escape_char(c) + escape(v.drop_first()));
            assert(t[0] == escape_char(c)[0]);
            if needs_escape(c) {
                assert(t[0] == '\\');
                assert(t[1] == escape_char(c)[1]);
            } else {
                assert(t[0] == c);
            }
        }
    } else if v.len() == 0 {
        let d = vb[0];
        assert(escape(v) =~= Seq::<char>::empty());
        assert(escape(vb) == escape_char(d) + escape(vb.drop_first()));
        assert(l[0] == '"');
        assert(l[0] == escape_char(d)[0]);
        if needs_escape(d) {
            assert(escape_char(d)[0] == '\\');
        } else {
            assert(escape_char(d)[0] == d && d != '"');
        }
        assert(false);
    } else {
        let c = v[0];
        let d = vb[0];
        assert(escape(v) == escape_char(c) + escape(v.drop_first()));
        assert(escape(vb) == escape_char(d) + escape(vb.drop_first()));
        assert(l[0] == escape_char(c)[0]);
        assert(l[0] == escape_char(d)[0]);
        if needs_escape(c) && needs_escape(d) {
            assert(l[1] == escape_char(c)[1]);
            assert(l[1] == escape_char(d)[1]);
            assert(c == d);
        } else if needs_escape(c) {
            assert(escape_char(c)[0] == '\\');
            assert(escape_char(d)[0] == d && d != '\\');
            assert(false);
        } else if needs_escape(d) {
            assert(escape_char(d)[0] == '\\');
            assert(escape_char(c)[0] == c && c != '\\');
            assert(false);
        } else {
            assert(c == d);
        }
        let ra = escape(v.drop_first()) + (seq!['"'] + x);
        let rb = escape(vb.drop_first()) + t;
        assert(l =~= escape_char(c) + ra);
        assert(escape(vb) + t =~= escape_char(d) + rb);
        assert(escape_char(c) + ra == escape_char(c) + rb);
        lemma_cancel_prefix(escape_char(c), ra, rb);
        lemma_escape_continuation(vb.drop_first(), v.drop_first(), x, t);
    }
}

/// A whole JSON string determines its contents and whatever follows.
proof fn lemma_quote_prefix(a: Seq<char>, b: Seq<char>, x: Seq<char>, y: Seq<char>)
    requires
        quote(a) + x == quote(b) + y,
    ensures
        a == b,
        x == y,
{
    let ra = escape(a) + (seq!['"'] + x);
    let rb = escape(b) + (seq!['"'] + y);
    assert(quote(a) + x =~= seq!['"'] + ra);
    assert(quote(b) + y =~= seq!['"'] + rb);
    lemma_cancel_prefix(seq!['"'], ra, rb);
    lemma_escape_quote_prefix(a, b, x, y);
}

/// The item lines of an array, closed by the array's bracket, determine
/// the items and whatever follows.
proof fn lemma_arr_items_prefix(u: Seq<Seq<char>>, v: Seq<Seq<char>>, x: Seq<char>, y: Seq<char>)
    requires
        u.len() >= 1,
        v.len() >= 1,
        arr_items(u) + ("  ]"@ + x) == arr_items(v) + ("  ]"@ + y),
    ensures
        u == v,
        x == y,
    decreases u.len(),
{
    reveal_strlit("    ");
    reveal_strlit("\n");
    reveal_strlit(",\n");
    reveal_strlit("  ]");
    let ta = if u.len() == 1 {
        "\n"@ + ("  ]"@ + x)
    } else {
        ",\n"@ + (arr_items(u.drop_first()) + ("  ]"@ + x))
    };
    let tb = if v.len() == 1 {
        "\n"@ + ("  ]"@ + y)
    } else {
        ",\n"@ + (arr_items(v.drop_first()) + ("  ]"@ + y))
    };
    assert(arr_items(u) + ("  ]"@ + x) =~= "    "@ + (quote(u[0]) + ta));
    assert(arr_items(v) + ("  ]"@ + y) =~= "    "@ + (quote(v[0]) + tb));
    lemma_cancel_prefix("    "@, quote(u[0]) + ta, quote(v[0]) + tb);
    lemma_quote_prefix(u[0], v[0], ta, tb);
    if u.len() == 1 && v.len() == 1 {
        lemma_cancel_prefix("\n"@, "  ]"@ + x, "  ]"@ + y);
        lemma_cancel_prefix("  ]"@, x, y);
        assert(u[0] == v[0]);
        assert(u =~= v);
    } else if u.len() == 1 {
        assert(ta[0] == '\n');
        assert(tb[0] == ',');
        assert(false);
    } else if v.len() == 1 {
        assert(ta[0] == ',');
        assert(tb[0] == '\n');
        assert(false);
    } else {
        lemma_cancel_prefix(
            ",\n"@,
            arr_items(u.drop_first()) + ("  ]"@ + x),
            arr_items(v.drop_first()) + ("  ]"@ + y),
        );
        lemma_arr_items_prefix(u.drop_first(), v.drop_first(), x, y);
        assert forall|k: int| 0 <= k < u.len() implies u[k] == v[k] by {
            if k >= 1 {
                assert(u.drop_first()[k - 1] == v.drop_first()[k - 1]);
            }
        }
        assert(u =~= v);
    }
}

/// A whole JSON array determines its items and whatever follows.
proof fn lemma_arr_prefix(u: Seq<Seq<char>>, v: Seq<Seq<char>>, x: Seq<char>, y: Seq<char>)
    requires
        arr_of(u) + x == arr_of(v) + y,
    ensures
        u == v,
        x == y,
{
    reveal_strlit("[]");
    reveal_strlit("[\n");
    if u.len() == 0 && v.len() == 0 {
        lemma_cancel_prefix("[]"@, x, y);
        assert(u =~= v);
    } else if u.len() == 0 {
        assert((arr_of(u) + x)[1] == ']');
        assert((arr_of(v) + y)[1] == '\n');
        assert(false);
    } else if v.len() == 0 {
        assert((arr_of(u) + x)[1] == '\n');
        assert((arr_of(v) + y)[1] == ']');
        assert(false);
    } else {
        assert(arr_of(u) + x =~= "[\n"@ + (arr_items(u) + ("  ]"@ + x)));
        assert(arr_of(v) + y =~= "[\n"@ + (arr_items(v) + ("  ]"@ + y)));
        lemma_cancel_prefix(
            "[\n"@,
            arr_items(u) + ("  ]"@ + x),
            arr_items(v) + ("  ]"@ + y),
        );
        lemma_arr_items_prefix(u, v, x, y);
    }
}

/// The stable serialized form of a report: every field present, in fixed
/// order, pretty-printed with two-space indent.
pub open spec fn json_of(m: ReportSpec) -> Seq<char> {
    "{\n  \"ExecutablePath\": "@ + quote(m.executable_path) + ",\n  \"ProcCmdline\": "@ + quote(
        m.proc_cmdline,
    ) + ",\n  \"OsInfo\": "@ + quote(m.os_info) + ",\n  \"CrashSeverity\": {\n    \"Type\": "@
        + quote(m.execution_class.severity) + ",\n    \"ShortDescription\": "@ + quote(
        m.execution_class.short_description,
    ) + ",\n    \"Description\": "@ + quote(m.execution_class.description)
        + ",\n    \"Explanation\": "@ + quote(m.execution_class.explanation)
        + "\n  },\n  \"AsanReport\": "@ + arr_of(m.asan_report) + ",\n  \"Stacktrace\": "@ + arr_of(
        m.stacktrace,
    ) + ",\n  \"ProcMaps\": "@ + arr_of(m.proc_maps) + ",\n  \"CrashLine\": "@ + quote(m.crashline)
        + ",\n  \"Source\": "@ + arr_of(m.source) + "\n}"@
}

/// Peel one known literal off an aligned remainder.
proof fn lemma_peel_lit(s: Seq<char>, j: int, j2: int, lit: Seq<char>, tail: Seq<char>)
    requires
        0 <= j <= j2 <= s.len(),
        s.subrange(j, s.len() as int) == lit + tail,
        s.subrange(j, j2) == lit,
    ensures
        s.subrange(j2, s.len() as int) == tail,
{
    assert(s.subrange(j, s.len() as int) =~= s.subrange(j, j2) + s.subrange(j2, s.len() as int));
    lemma_cancel_prefix(lit, s.subrange(j2, s.len() as int), tail);
}

/// Peel one parsed JSON string off an aligned remainder.
proof fn lemma_peel_quote(
    s: Seq<char>,
    j: int,
    j2: int,
    v: Seq<char>,
    w: Seq<char>,
    tail: Seq<char>,
)
    requires
        0 <= j <= j2 <= s.len(),
        s.subrange(j, s.len() as int) == quote(w) + tail,
        s.subrange(j, j2) == quote(v),
    ensures
        v == w,
        s.subrange(j2, s.len() as int) == tail,
{
    assert(s.subrange(j, s.len() as int) =~= s.subrange(j, j2) + s.subrange(j2, s.len() as int));
    lemma_quote_prefix(v, w, s.subrange(j2, s.len() as int), tail);
}

/// Peel one parsed JSON array off an aligned remainder.
proof fn lemma_peel_arr(
    s: Seq<char>,
    j: int,
    j2: int,
    u: Seq<Seq<char>>,
    w: Seq<Seq<char>>,
    tail: Seq<char>,
)
    requires
        0 <= j <= j2 <= s.len(),
        s.subrange(j, s.len() as int) == arr_of(w) + tail,
        s.subrange(j, j2) == arr_of(u),
    ensures
        u == w,
        s.subrange(j2, s.len() as int) == tail,
{
    assert(s.subrange(j, s.len() as int) =~= s.subrange(j, j2) + s.subrange(j2, s.len() as int));
    lemma_arr_prefix(u, w, s.subrange(j2, s.len() as int), tail);
}

/// A literal standing at the head of an aligned remainder is present.
proof fn lemma_lit_present(s: Seq<char>, j: int, lit: Seq<char>, tail: Seq<char>)
    requires
        0 <= j <= s.len(),
        s.subrange(j, s.len() as int) == lit + tail,
    ensures
        matches_at(s, lit, j),
{
    assert((lit + tail).len() == lit.len() + tail.len());
    assert(j + lit.len() <= s.len());
    assert forall|i: int| 0 <= i < lit.len() implies s.subrange(j, j + lit.len())[i] == lit[i] by {
        assert(s.subrange(j, s.len() as int)[i] == s[j + i]);
        assert((lit + tail)[i] == lit[i]);
    }
    assert(s.subrange(j, j + lit.len()) =~= lit);
}

/// A mismatch while reading piece 1 of the form rules out every report.
proof fn lemma_no_report_1(
    s: Seq<char>,
)
    requires
        !matches_at(s, "{\n  \"ExecutablePath\": "@, 0),
    ensures
        forall|m: ReportSpec| s != json_of(m),
{
    assert forall|m: ReportSpec| s != json_of(m) by {
        if s == json_of(m) {
            lemma_json_right(m);
            assert(s.subrange(0, s.len() as int) =~= s);
            lemma_lit_present(s, 0, "{\n  \"ExecutablePath\": "@, jtail2(m));
            assert(false);
        }
    }
}

/// A mismatch while reading piece 2 of the form rules out every report.
proof fn lemma_no_report_2(
    s: Seq<char>,
    q1: int,
)
    requires
        0 <= q1 <= s.len(),
        s.subrange(0, q1) == "{\n  \"ExecutablePath\": "@,
        forall|w: Seq<char>, rest: Seq<char>| s.subrange(q1, s.len() as int) != quote(w) + rest,
    ensures
        forall|m: ReportSpec| s != json_of(m),
{
    assert forall|m: ReportSpec| s != json_of(m) by {
        if s == json_of(m) {
            lemma_json_right(m);
            assert(s.subrange(0, s.len() as int) =~= s);
            lemma_peel_lit(s, 0, q1, "{\n  \"ExecutablePath\": "@, jtail2(m));
            assert(s.subrange(q1, s.len() as int) != quote(m.executable_path) + jtail3(m));
            assert(false);
        }
    }
}

/// A mismatch while reading piece 3 of the form rules out every report.
proof fn lemma_no_report_3(
    s: Seq<char>,
    q1: int,
    q2: int,
    v2: Seq<char>,
)
    requires
        0 <= q1 <= s.len(),
        s.subrange(0, q1) == "{\n  \"ExecutablePath\": "@,
        q1 <= q2 <= s.len(),
        s.subrange(q1, q2) == quote(v2),
        !matches_at(s, ",\n  \"ProcCmdline\": "@, q2),
    ensures
        forall|m: ReportSpec| s != json_of(m),
{
    assert forall|m: ReportSpec| s != json_of(m) by {
        if s == json_of(m) {
            lemma_json_right(m);
            assert(s.subrange(0, s.len() as int) =~= s);
            lemma_peel_lit(s, 0, q1, "{\n  \"ExecutablePath\": "@, jtail2(m));
            lemma_peel_quote(s, q1, q2, v2, m.executable_path, jtail3(m));
            lemma_lit_present(s, q2, ",\n  \"ProcCmdline\": "@, jtail4(m));
            assert(false);
        }
    }
}

/// A mismatch while reading piece 4 of the form rules out every report.
proof fn lemma_no_report_4(
    s: Seq<char>,
    q1: int,
    q2: int,
    v2: Seq<char>,
    q3: int,
)
    requires
        0 <= q1 <= s.len(),
        s.subrange(0, q1) == "{\n  \"ExecutablePath\": "@,
        q1 <= q2 <= s.len(),
        s.subrange(q1, q2) == quote(v2),
        q2 <= q3 <= s.len(),
        s.subrange(q2, q3) == ",\n  \"ProcCmdline\": "@,
        forall|w: Seq<char>, rest: Seq<char>| s.subrange(q3, s.len() as int) != quote(w) + rest,
    ensures
        forall|m: ReportSpec| s != json_of(m),
{
    assert forall|m: ReportSpec| s != json_of(m) by {
        if s == json_of(m) {
            lemma_json_right(m);
            assert(s.subrange(0, s.len() as int) =~= s);
            lemma_peel_lit(s, 0, q1, "{\n  \"ExecutablePath\": "@, jtail2(m));
            lemma_peel_quote(s, q1, q2, v2, m.executable_path, jtail3(m));
            lemma_peel_lit(s, q2, q3, ",\n  \"ProcCmdline\": "@, jtail4(m));
            assert(s.subrange(q3, s.len() as int) != quote(m.proc_cmdline) + jtail5(m));
            assert(false);
        }
    }
}

/// A mismatch while reading piece 5 of the form rules out every report.
proof fn lemma_no_report_5(
    s: Seq<char>,
    q1: int,
    q2: int,
    v2: Seq<char>,
    q3: int,
    q4: int,
    v4: Seq<char>,
)
    requires
        0 <= q1 <= s.len(),
        s.subrange(0, q1) == "{\n  \"ExecutablePath\": "@,
        q1 <= q2 <= s.len(),
        s.subrange(q1, q2) == quote(v2),
        q2 <= q3 <= s.len(),
        s.subrange(q2, q3) == ",\n  \"ProcCmdline\": "@,
        q3 <= q4 <= s.len(),
        s.subrange(q3, q4) == quote(v4),
        !matches_at(s, ",\n  \"OsInfo\": "@, q4),
    ensures
        forall|m: ReportSpec| s != json_of(m),
{
    assert forall|m: ReportSpec| s != json_of(m) by {
        if s == json_of(m) {
            lemma_json_right(m);
            assert(s.subrange(0, s.len() as int) =~= s);
            lemma_peel_lit(s, 0, q1, "{\n  \"ExecutablePath\": "@, jtail2(m));
            lemma_peel_quote(s, q1, q2, v2, m.executable_path, jtail3(m));
            lemma_peel_lit(s, q2, q3, ",\n  \"ProcCmdline\": "@, jtail4(m));
            lemma_peel_quote(s, q3, q4, v4, m.proc_cmdline, jtail5(m));
            lemma_lit_present(s, q4, ",\n  \"OsInfo\": "@, jtail6(m));
            assert(false);
        }
    }
}

/// A mismatch while reading piece 6 of the form rules out every report.
proof fn lemma_no_report_6(
    s: Seq<char>,
    q1: int,
    q2: int,
    v2: Seq<char>,
    q3: int,
    q4: int,
    v4: Seq<char>,
    q5: int,
)
    requires
        0 <= q1 <= s.len(),
        s.subrange(0, q1) == "{\n  \"ExecutablePath\": "@,
        q1 <= q2 <= s.len(),
        s.subrange(q1, q2) == quote(v2),
        q2 <= q3 <= s.len(),
        s.subrange(q2, q3) == ",\n  \"ProcCmdline\": "@,
        q3 <= q4 <= s.len(),
        s.subrange(q3, q4) == quote(v4),
        q4 <= q5 <= s.len(),
        s.subrange(q4, q5) == ",\n  \"OsInfo\": "@,
        forall|w: Seq<char>, rest: Seq<char>| s.subrange(q5, s.len() as int) != quote(w) + rest,
    ensures
        forall|m: ReportSpec| s != json_of(m),
{
    assert forall|m: ReportSpec| s != json_of(m) by {
        if s == json_of(m) {
            lemma_json_right(m);
            assert(s.subrange(0, s.len() as int) =~= s);
            lemma_peel_lit(s, 0, q1, "{\n  \"ExecutablePath\": "@, jtail2(m));
            lemma_peel_quote(s, q1, q2, v2, m.executable_path, jtail3(m));
            lemma_peel_lit(s, q2, q3, ",\n  \"ProcCmdline\": "@, jtail4(m));
            lemma_peel_quote(s, q3, q4, v4, m.proc_cmdline, jtail5(m));
            lemma_peel_lit(s, q4, q5, ",\n  \"OsInfo\": "@, jtail6(m));
            assert(s.subrange(q5, s.len() as int) != quote(m.os_info) + jtail7(m));
            assert(false);
        }
    }
}

/// A mismatch while reading piece 7 of the form rules out every report.
proof fn lemma_no_report_7(
    s: Seq<char>,
    q1: int,
    q2: int,
    v2: Seq<char>,
    q3: int,
    q4: int,
    v4: Seq<char>,
    q5: int,
    q6: int,
    v6: Seq<char>,
)
    requires
        0 <= q1 <= s.len(),
        s.subrange(0, q1) == "{\n  \"ExecutablePath\": "@,
        q1 <= q2 <= s.len(),
        s.subrange(q1, q2) == quote(v2),
        q2 <= q3 <= s.len(),
        s.subrange(q2, q3) == ",\n  \"ProcCmdline\": "@,
        q3 <= q4 <= s.len(),
        s.subrange(q3, q4) == quote(v4),
        q4 <= q5 <= s.len(),
        s.subrange(q4, q5) == ",\n  \"OsInfo\": "@,
        q5 <= q6 <= s.len(),
        s.subrange(q5, q6) == quote(v6),
        !matches_at(s, ",\n  \"CrashSeverity\": {\n    \"Type\": "@, q6),
    ensures
        forall|m: ReportSpec| s != json_of(m),
{
    assert forall|m: ReportSpec| s != json_of(m) by {
        if s == json_of(m) {
            lemma_json_right(m);
            assert(s.subrange(0, s.len() as int) =~= s);
            lemma_peel_lit(s, 0, q1, "{\n  \"ExecutablePath\": "@, jtail2(m));
            lemma_peel_quote(s, q1, q2, v2, m.executable_path, jtail3(m));
            lemma_peel_lit(s, q2, q3, ",\n  \"ProcCmdline\": "@, jtail4(m));
            lemma_peel_quote(s, q3, q4, v4, m.proc_cmdline, jtail5(m));
            lemma_peel_lit(s, q4, q5, ",\n  \"OsInfo\": "@, jtail6(m));
            lemma_peel_quote(s, q5, q6, v6, m.os_info, jtail7(m));
            lemma_lit_present(s, q6, ",\n  \"CrashSeverity\": {\n    \"Type\": "@, jtail8(m));
            assert(false);
        }
    }
}

/// A mismatch while reading piece 8 of the form rules out every report.
proof fn lemma_no_report_8(
    s: Seq<char>,
    q1: int,
    q2: int,
    v2: Seq<char>,
    q3: int,
    q4: int,
    v4: Seq<char>,
    q5: int,
    q6: int,
    v6: Seq<char>,
    q7: int,
)
    requires
        0 <= q1 <= s.len(),
        s.subrange(0, q1) == "{\n  \"ExecutablePath\": "@,
        q1 <= q2 <= s.len(),
        s.subrange(q1, q2) == quote(v2),
        q2 <= q3 <= s.len(),
        s.subrange(q2, q3) == ",\n  \"ProcCmdline\": "@,
        q3 <= q4 <= s.len(),
        s.subrange(q3, q4) == quote(v4),
        q4 <= q5 <= s.len(),
        s.subrange(q4, q5) == ",\n  \"OsInfo\": "@,
        q5 <= q6 <= s.len(),
        s.subrange(q5, q6) == quote(v6),
        q6 <= q7 <= s.len(),
        s.subrange(q6, q7) == ",\n  \"CrashSeverity\": {\n    \"Type\": "@,
        forall|w: Seq<char>, rest: Seq<char>| s.subrange(q7, s.len() as int) != quote(w) + rest,
    ensures
        forall|m: ReportSpec| s != json_of(m),
{
    assert forall|m: ReportSpec| s != json_of(m) by {
        if s == json_of(m) {
            lemma_json_right(m);
            assert(s.subrange(0, s.len() as int) =~= s);
            lemma_peel_lit(s, 0, q1, "{\n  \"ExecutablePath\": "@, jtail2(m));
            lemma_peel_quote(s, q1, q2, v2, m.executable_path, jtail3(m));
            lemma_peel_lit(s, q2, q3, ",\n  \"ProcCmdline\": "@, jtail4(m));
            lemma_peel_quote(s, q3, q4, v4, m.proc_cmdline, jtail5(m));
            lemma_peel_lit(s, q4, q5, ",\n  \"OsInfo\": "@, jtail6(m));
            lemma_peel_quote(s, q5, q6, v6, m.os_info, jtail7(m));
            lemma_peel_lit(s, q6, q7, ",\n  \"CrashSeverity\": {\n    \"Type\": "@, jtail8(m));
            assert(s.subrange(q7, s.len() as int) != quote(m.execution_class.severity) + jtail9(m));
            assert(false);
        }
    }
}

/// A mismatch while reading piece 9 of the form rules out every report.
proof fn lemma_no_report_9(
    s: Seq<char>,
    q1: int,
    q2: int,
    v2: Seq<char>,
    q3: int,
    q4: int,
    v4: Seq<char>,
    q5: int,
    q6: int,
    v6: Seq<char>,
    q7: int,
    q8: int,
    v8: Seq<char>,
)
    requires
        0 <= q1 <= s.len(),
        s.subrange(0, q1) == "{\n  \"ExecutablePath\": "@,
        q1 <= q2 <= s.len(),
        s.subrange(q1, q2) == quote(v2),
        q2 <= q3 <= s.len(),
        s.subrange(q2, q3) == ",\n  \"ProcCmdline\": "@,
        q3 <= q4 <= s.len(),
        s.subrange(q3, q4) == quote(v4),
        q4 <= q5 <= s.len(),
        s.subrange(q4, q5) == ",\n  \"OsInfo\": "@,
        q5 <= q6 <= s.len(),
        s.subrange(q5, q6) == quote(v6),
        q6 <= q7 <= s.len(),
        s.subrange(q6, q7) == ",\n  \"CrashSeverity\": {\n    \"Type\": "@,
        q7 <= q8 <= s.len(),
        s.subrange(q7, q8) == quote(v8),
        !matches_at(s, ",\n    \"ShortDescription\": "@, q8),
    ensures
        forall|m: ReportSpec| s != json_of(m),
{
    assert forall|m: ReportSpec| s != json_of(m) by {
        if s == json_of(m) {
            lemma_json_right(m);
            assert(s.subrange(0, s.len() as int) =~= s);
            lemma_peel_lit(s, 0, q1, "{\n  \"ExecutablePath\": "@, jtail2(m));
            lemma_peel_quote(s, q1, q2, v2, m.executable_path, jtail3(m));
            lemma_peel_lit(s, q2, q3, ",\n  \"ProcCmdline\": "@, jtail4(m));
            lemma_peel_quote(s, q3, q4, v4, m.proc_cmdline, jtail5(m));
            lemma_peel_lit(s, q4, q5, ",\n  \"OsInfo\": "@, jtail6(m));
            lemma_peel_quote(s, q5, q6, v6, m.os_info, jtail7(m));
            lemma_peel_lit(s, q6, q7, ",\n  \"CrashSeverity\": {\n    \"Type\": "@, jtail8(m));
            lemma_peel_quote(s, q7, q8, v8, m.execution_class.severity, jtail9(m));
            lemma_lit_present(s, q8, ",\n    \"ShortDescription\": "@, jtail10(m));
            assert(false);
        }
    }
}

/// A mismatch while reading piece 10 of the form rules out every report.
proof fn lemma_no_report_10(
    s: Seq<char>,
    q1: int,
    q2: int,
    v2: Seq<char>,
    q3: int,
    q4: int,
    v4: Seq<char>,
    q5: int,
    q6: int,
    v6: Seq<char>,
    q7: int,
    q8: int,
    v8: Seq<char>,
    q9: int,
)
    requires
        0 <= q1 <= s.len(),
        s.subrange(0, q1) == "{\n  \"ExecutablePath\": "@,
        q1 <= q2 <= s.len(),
        s.subrange(q1, q2) == quote(v2),
        q2 <= q3 <= s.len(),
        s.subrange(q2, q3) == ",\n  \"ProcCmdline\": "@,
        q3 <= q4 <= s.len(),
        s.subrange(q3, q4) == quote(v4),
        q4 <= q5 <= s.len(),
        s.subrange(q4, q5) == ",\n  \"OsInfo\": "@,
        q5 <= q6 <= s.len(),
        s.subrange(q5, q6) == quote(v6),
        q6 <= q7 <= s.len(),
        s.subrange(q6, q7) == ",\n  \"CrashSeverity\": {\n    \"Type\": "@,
        q7 <= q8 <= s.len(),
        s.subrange(q7, q8) == quote(v8),
        q8 <= q9 <= s.len(),
        s.subrange(q8, q9) == ",\n    \"ShortDescription\": "@,
        forall|w: Seq<char>, rest: Seq<char>| s.subrange(q9, s.len() as int) != quote(w) + rest,
    ensures
        forall|m: ReportSpec| s != json_of(m),
{
    assert forall|m: ReportSpec| s != json_of(m) by {
        if s == json_of(m) {
            lemma_json_right(m);
            assert(s.subrange(0, s.len() as int) =~= s);
            lemma_peel_lit(s, 0, q1, "{\n  \"ExecutablePath\": "@, jtail2(m));
            lemma_peel_quote(s, q1, q2, v2, m.executable_path, jtail3(m));
            lemma_peel_lit(s, q2, q3, ",\n  \"ProcCmdline\": "@, jtail4(m));
            lemma_peel_quote(s, q3, q4, v4, m.proc_cmdline, jtail5(m));
            lemma_peel_lit(s, q4, q5, ",\n  \"OsInfo\": "@, jtail6(m));
            lemma_peel_quote(s, q5, q6, v6, m.os_info, jtail7(m));
            lemma_peel_lit(s, q6, q7, ",\n  \"CrashSeverity\": {\n    \"Type\": "@, jtail8(m));
            lemma_peel_quote(s, q7, q8, v8, m.execution_class.severity, jtail9(m));
            lemma_peel_lit(s, q8, q9, ",\n    \"ShortDescription\": "@, jtail10(m));
            assert(s.subrange(q9, s.len() as int) != quote(m.execution_class.short_description) + jtail11(m));
            assert(false);
        }
    }
}

/// A mismatch while reading piece 11 of the form rules out every report.
proof fn lemma_no_report_11(
    s: Seq<char>,
    q1: int,
    q2: int,
    v2: Seq<char>,
    q3: int,
    q4: int,
    v4: Seq<char>,
    q5: int,
    q6: int,
    v6: Seq<char>,
    q7: int,
    q8: int,
    v8: Seq<char>,
    q9: int,
    q10: int,
    v10: Seq<char>,
)
    requires
        0 <= q1 <= s.len(),
        s.subrange(0, q1) == "{\n  \"ExecutablePath\": "@,
        q1 <= q2 <= s.len(),
        s.subrange(q1, q2) == quote(v2),
        q2 <= q3 <= s.len(),
        s.subrange(q2, q3) == ",\n  \"ProcCmdline\": "@,
        q3 <= q4 <= s.len(),
        s.subrange(q3, q4) == quote(v4),
        q4 <= q5 <= s.len(),
        s.subrange(q4, q5) == ",\n  \"OsInfo\": "@,
        q5 <= q6 <= s.len(),
        s.subrange(q5, q6) == quote(v6),
        q6 <= q7 <= s.len(),
        s.subrange(q6, q7) == ",\n  \"CrashSeverity\": {\n    \"Type\": "@,
        q7 <= q8 <= s.len(),
        s.subrange(q7, q8) == quote(v8),
        q8 <= q9 <= s.len(),
        s.subrange(q8, q9) == ",\n    \"ShortDescription\": "@,
        q9 <= q10 <= s.len(),
        s.subrange(q9, q10) == quote(v10),
        !matches_at(s, ",\n    \"Description\": "@, q10),
    ensures
        forall|m: ReportSpec| s != json_of(m),
{
    assert forall|m: ReportSpec| s != json_of(m) by {
        if s == json_of(m) {
            lemma_json_right(m);
            assert(s.subrange(0, s.len() as int) =~= s);
            lemma_peel_lit(s, 0, q1, "{\n  \"ExecutablePath\": "@, jtail2(m));
            lemma_peel_quote(s, q1, q2, v2, m.executable_path, jtail3(m));
            lemma_peel_lit(s, q2, q3, ",\n  \"ProcCmdline\": "@, jtail4(m));
            lemma_peel_quote(s, q3, q4, v4, m.proc_cmdline, jtail5(m));
            lemma_peel_lit(s, q4, q5, ",\n  \"OsInfo\": "@, jtail6(m));
            lemma_peel_quote(s, q5, q6, v6, m.os_info, jtail7(m));
            lemma_peel_lit(s, q6, q7, ",\n  \"CrashSeverity\": {\n    \"Type\": "@, jtail8(m));
            lemma_peel_quote(s, q7, q8, v8, m.execution_class.severity, jtail9(m));
            lemma_peel_lit(s, q8, q9, ",\n    \"ShortDescription\": "@, jtail10(m));
            lemma_peel_quote(s, q9, q10, v10, m.execution_class.short_description, jtail11(m));
            lemma_lit_present(s, q10, ",\n    \"Description\": "@, jtail12(m));
            assert(false);
        }
    }
}

/// A mismatch while reading piece 12 of the form rules out every report.
proof fn lemma_no_report_12(
    s: Seq<char>,
    q1: int,
    q2: int,
    v2: Seq<char>,
    q3: int,
    q4: int,
    v4: Seq<char>,
    q5: int,
    q6: int,
    v6: Seq<char>,
    q7: int,
    q8: int,
    v8: Seq<char>,
    q9: int,
    q10: int,
    v10: Seq<char>,
    q11: int,
)
    requires
        0 <= q1 <= s.len(),
        s.subrange(0, q1) == "{\n  \"ExecutablePath\": "@,
        q1 <= q2 <= s.len(),
        s.subrange(q1, q2) == quote(v2),
        q2 <= q3 <= s.len(),
        s.subrange(q2, q3) == ",\n  \"ProcCmdline\": "@,
        q3 <= q4 <= s.len(),
        s.subrange(q3, q4) == quote(v4),
        q4 <= q5 <= s.len(),
        s.subrange(q4, q5) == ",\n  \"OsInfo\": "@,
        q5 <= q6 <= s.len(),
        s.subrange(q5, q6) == quote(v6),
        q6 <= q7 <= s.len(),
        s.subrange(q6, q7) == ",\n  \"CrashSeverity\": {\n    \"Type\": "@,
        q7 <= q8 <= s.len(),
        s.subrange(q7, q8) == quote(v8),
        q8 <= q9 <= s.len(),
        s.subrange(q8, q9) == ",\n    \"ShortDescription\": "@,
        q9 <= q10 <= s.len(),
        s.subrange(q9, q10) == quote(v10),
        q10 <= q11 <= s.len(),
        s.subrange(q10, q11) == ",\n    \"Description\": "@,
        forall|w: Seq<char>, rest: Seq<char>| s.subrange(q11, s.len() as int) != quote(w) + rest,
    ensures
        forall|m: ReportSpec| s != json_of(m),
{
    assert forall|m: ReportSpec| s != json_of(m) by {
        if s == json_of(m) {
            lemma_json_right(m);
            assert(s.subrange(0, s.len() as int) =~= s);
            lemma_peel_lit(s, 0, q1, "{\n  \"ExecutablePath\": "@, jtail2(m));
            lemma_peel_quote(s, q1, q2, v2, m.executable_path, jtail3(m));
            lemma_peel_lit(s, q2, q3, ",\n  \"ProcCmdline\": "@, jtail4(m));
            lemma_peel_quote(s, q3, q4, v4, m.proc_cmdline, jtail5(m));
            lemma_peel_lit(s, q4, q5, ",\n  \"OsInfo\": "@, jtail6(m));
            lemma_peel_quote(s, q5, q6, v6, m.os_info, jtail7(m));
            lemma_peel_lit(s, q6, q7, ",\n  \"CrashSeverity\": {\n    \"Type\": "@, jtail8(m));
            lemma_peel_quote(s, q7, q8, v8, m.execution_class.severity, jtail9(m));
            lemma_peel_lit(s, q8, q9, ",\n    \"ShortDescription\": "@, jtail10(m));
            lemma_peel_quote(s, q9, q10, v10, m.execution_class.short_description, jtail11(m));
            lemma_peel_lit(s, q10, q11, ",\n    \"Description\": "@, jtail12(m));
            assert(s.subrange(q11, s.len() as int) != quote(m.execution_class.description) + jtail13(m));
            assert(false);
        }
    }
}

/// A mismatch while reading piece 13 of the form rules out every report.
proof fn lemma_no_report_13(
    s: Seq<char>,
    q1: int,
    q2: int,
    v2: Seq<char>,
    q3: int,
    q4: int,
    v4: Seq<char>,
    q5: int,
    q6: int,
    v6: Seq<char>,
    q7: int,
    q8: int,
    v8: Seq<char>,
    q9: int,
    q10: int,
    v10: Seq<char>,
    q11: int,
    q12: int,
    v12: Seq<char>,
)
    requires
        0 <= q1 <= s.len(),
        s.subrange(0, q1) == "{\n  \"ExecutablePath\": "@,
        q1 <= q2 <= s.len(),
        s.subrange(q1, q2) == quote(v2),
        q2 <= q3 <= s.len(),
        s.subrange(q2, q3) == ",\n  \"ProcCmdline\": "@,
        q3 <= q4 <= s.len(),
        s.subrange(q3, q4) == quote(v4),
        q4 <= q5 <= s.len(),
        s.subrange(q4, q5) == ",\n  \"OsInfo\": "@,
        q5 <= q6 <= s.len(),
        s.subrange(q5, q6) == quote(v6),
        q6 <= q7 <= s.len(),
        s.subrange(q6, q7) == ",\n  \"CrashSeverity\": {\n    \"Type\": "@,
        q7 <= q8 <= s.len(),
        s.subrange(q7, q8) == quote(v8),
        q8 <= q9 <= s.len(),
        s.subrange(q8, q9) == ",\n    \"ShortDescription\": "@,
        q9 <= q10 <= s.len(),
        s.subrange(q9, q10) == quote(v10),
        q10 <= q11 <= s.len(),
        s.subrange(q10, q11) == ",\n    \"Description\": "@,
        q11 <= q12 <= s.len(),
        s.subrange(q11, q12) == quote(v12),
        !matches_at(s, ",\n    \"Explanation\": "@, q12),
    ensures
        forall|m: ReportSpec| s != json_of(m),
{
    assert forall|m: ReportSpec| s != json_of(m) by {
        if s == json_of(m) {
            lemma_json_right(m);
            assert(s.subrange(0, s.len() as int) =~= s);
            lemma_peel_lit(s, 0, q1, "{\n  \"ExecutablePath\": "@, jtail2(m));
            lemma_peel_quote(s, q1, q2, v2, m.executable_path, jtail3(m));
            lemma_peel_lit(s, q2, q3, ",\n  \"ProcCmdline\": "@, jtail4(m));
            lemma_peel_quote(s, q3, q4, v4, m.proc_cmdline, jtail5(m));
            lemma_peel_lit(s, q4, q5, ",\n  \"OsInfo\": "@, jtail6(m));
            lemma_peel_quote(s, q5, q6, v6, m.os_info, jtail7(m));
            lemma_peel_lit(s, q6, q7, ",\n  \"CrashSeverity\": {\n    \"Type\": "@, jtail8(m));
            lemma_peel_quote(s, q7, q8, v8, m.execution_class.severity, jtail9(m));
            lemma_peel_lit(s, q8, q9, ",\n    \"ShortDescription\": "@, jtail10(m));
            lemma_peel_quote(s, q9, q10, v10, m.execution_class.short_description, jtail11(m));
            lemma_peel_lit(s, q10, q11, ",\n    \"Description\": "@, jtail12(m));
            lemma_peel_quote(s, q11, q12, v12, m.execution_class.description, jtail13(m));
            lemma_lit_present(s, q12, ",\n    \"Explanation\": "@, jtail14(m));
            assert(false);
        }
    }
}

/// A mismatch while reading piece 14 of the form rules out every report.
proof fn lemma_no_report_14(
    s: Seq<char>,
    q1: int,
    q2: int,
    v2: Seq<char>,
    q3: int,
    q4: int,
    v4: Seq<char>,
    q5: int,
    q6: int,
    v6: Seq<char>,
    q7: int,
    q8: int,
    v8: Seq<char>,
    q9: int,
    q10: int,
    v10: Seq<char>,
    q11: int,
    q12: int,
    v12: Seq<char>,
    q13: int,
)
    requires
        0 <= q1 <= s.len(),
        s.subrange(0, q1) == "{\n  \"ExecutablePath\": "@,
        q1 <= q2 <= s.len(),
        s.subrange(q1, q2) == quote(v2),
        q2 <= q3 <= s.len(),
        s.subrange(q2, q3) == ",\n  \"ProcCmdline\": "@,
        q3 <= q4 <= s.len(),
        s.subrange(q3, q4) == quote(v4),
        q4 <= q5 <= s.len(),
        s.subrange(q4, q5) == ",\n  \"OsInfo\": "@,
        q5 <= q6 <= s.len(),
        s.subrange(q5, q6) == quote(v6),
        q6 <= q7 <= s.len(),
        s.subrange(q6, q7) == ",\n  \"CrashSeverity\": {\n    \"Type\": "@,
        q7 <= q8 <= s.len(),
        s.subrange(q7, q8) == quote(v8),
        q8 <= q9 <= s.len(),
        s.subrange(q8, q9) == ",\n    \"ShortDescription\": "@,
        q9 <= q10 <= s.len(),
        s.subrange(q9, q10) == quote(v10),
        q10 <= q11 <= s.len(),
        s.subrange(q10, q11) == ",\n    \"Description\": "@,
        q11 <= q12 <= s.len(),
        s.subrange(q11, q12) == quote(v12),
        q12 <= q13 <= s.len(),
        s.subrange(q12, q13) == ",\n    \"Explanation\": "@,
        forall|w: Seq<char>, rest: Seq<char>| s.subrange(q13, s.len() as int) != quote(w) + rest,
    ensures
        forall|m: ReportSpec| s != json_of(m),
{
    assert forall|m: ReportSpec| s != json_of(m) by {
        if s == json_of(m) {
            lemma_json_right(m);
            assert(s.subrange(0, s.len() as int) =~= s);
            lemma_peel_lit(s, 0, q1, "{\n  \"ExecutablePath\": "@, jtail2(m));
            lemma_peel_quote(s, q1, q2, v2, m.executable_path, jtail3(m));
            lemma_peel_lit(s, q2, q3, ",\n  \"ProcCmdline\": "@, jtail4(m));
            lemma_peel_quote(s, q3, q4, v4, m.proc_cmdline, jtail5(m));
            lemma_peel_lit(s, q4, q5, ",\n  \"OsInfo\": "@, jtail6(m));
            lemma_peel_quote(s, q5, q6, v6, m.os_info, jtail7(m));
            lemma_peel_lit(s, q6, q7, ",\n  \"CrashSeverity\": {\n    \"Type\": "@, jtail8(m));
            lemma_peel_quote(s, q7, q8, v8, m.execution_class.severity, jtail9(m));
            lemma_peel_lit(s, q8, q9, ",\n    \"ShortDescription\": "@, jtail10(m));
            lemma_peel_quote(s, q9, q10, v10, m.execution_class.short_description, jtail11(m));
            lemma_peel_lit(s, q10, q11, ",\n    \"Description\": "@, jtail12(m));
            lemma_peel_quote(s, q11, q12, v12, m.execution_class.description, jtail13(m));
            lemma_peel_lit(s, q12, q13, ",\n    \"Explanation\": "@, jtail14(m));
            assert(s.subrange(q13, s.len() as int) != quote(m.execution_class.explanation) + jtail15(m));
            assert(false);
        }
    }
}

/// A mismatch while reading piece 15 of the form rules out every report.
proof fn lemma_no_report_15(
    s: Seq<char>,
    q1: int,
    q2: int,
    v2: Seq<char>,
    q3: int,
    q4: int,
    v4: Seq<char>,
    q5: int,
    q6: int,
    v6: Seq<char>,
    q7: int,
    q8: int,
    v8: Seq<char>,
    q9: int,
    q10: int,
    v10: Seq<char>,
    q11: int,
    q12: int,
    v12: Seq<char>,
    q13: int,
    q14: int,
    v14: Seq<char>,
)
    requires
        0 <= q1 <= s.len(),
        s.subrange(0, q1) == "{\n  \"ExecutablePath\": "@,
        q1 <= q2 <= s.len(),
        s.subrange(q1, q2) == quote(v2),
        q2 <= q3 <= s.len(),
        s.subrange(q2, q3) == ",\n  \"ProcCmdline\": "@,
        q3 <= q4 <= s.len(),
        s.subrange(q3, q4) == quote(v4),
        q4 <= q5 <= s.len(),
        s.subrange(q4, q5) == ",\n  \"OsInfo\": "@,
        q5 <= q6 <= s.len(),
        s.subrange(q5, q6) == quote(v6),
        q6 <= q7 <= s.len(),
        s.subrange(q6, q7) == ",\n  \"CrashSeverity\": {\n    \"Type\": "@,
        q7 <= q8 <= s.len(),
        s.subrange(q7, q8) == quote(v8),
        q8 <= q9 <= s.len(),
        s.subrange(q8, q9) == ",\n    \"ShortDescription\": "@,
        q9 <= q10 <= s.len(),
        s.subrange(q9, q10) == quote(v10),
        q10 <= q11 <= s.len(),
        s.subrange(q10, q11) == ",\n    \"Description\": "@,
        q11 <= q12 <= s.len(),
        s.subrange(q11, q12) == quote(v12),
        q12 <= q13 <= s.len(),
        s.subrange(q12, q13) == ",\n    \"Explanation\": "@,
        q13 <= q14 <= s.len(),
        s.subrange(q13, q14) == quote(v14),
        !matches_at(s, "\n  },\n  \"AsanReport\": "@, q14),
    ensures
        forall|m: ReportSpec| s != json_of(m),
{
    assert forall|m: ReportSpec| s != json_of(m) by {
        if s == json_of(m) {
            lemma_json_right(m);
            assert(s.subrange(0, s.len() as int) =~= s);
            lemma_peel_lit(s, 0, q1, "{\n  \"ExecutablePath\": "@, jtail2(m));
            lemma_peel_quote(s, q1, q2, v2, m.executable_path, jtail3(m));
            lemma_peel_lit(s, q2, q3, ",\n  \"ProcCmdline\": "@, jtail4(m));
            lemma_peel_quote(s, q3, q4, v4, m.proc_cmdline, jtail5(m));
            lemma_peel_lit(s, q4, q5, ",\n  \"OsInfo\": "@, jtail6(m));
            lemma_peel_quote(s, q5, q6, v6, m.os_info, jtail7(m));
            lemma_peel_lit(s, q6, q7, ",\n  \"CrashSeverity\": {\n    \"Type\": "@, jtail8(m));
            lemma_peel_quote(s, q7, q8, v8, m.execution_class.severity, jtail9(m));
            lemma_peel_lit(s, q8, q9, ",\n    \"ShortDescription\": "@, jtail10(m));
            lemma_peel_quote(s, q9, q10, v10, m.execution_class.short_description, jtail11(m));
            lemma_peel_lit(s, q10, q11, ",\n    \"Description\": "@, jtail12(m));
            lemma_peel_quote(s, q11, q12, v12, m.execution_class.description, jtail13(m));
            lemma_peel_lit(s, q12, q13, ",\n    \"Explanation\": "@, jtail14(m));
            lemma_peel_quote(s, q13, q14, v14, m.execution_class.explanation, jtail15(m));
            lemma_lit_present(s, q14, "\n  },\n  \"AsanReport\": "@, jtail16(m));
            assert(false);
        }
    }
}

/// A mismatch while reading piece 16 of the form rules out every report.
proof fn lemma_no_report_16(
    s: Seq<char>,
    q1: int,
    q2: int,
    v2: Seq<char>,
    q3: int,
    q4: int,
    v4: Seq<char>,
    q5: int,
    q6: int,
    v6: Seq<char>,
    q7: int,
    q8: int,
    v8: Seq<char>,
    q9: int,
    q10: int,
    v10: Seq<char>,
    q11: int,
    q12: int,
    v12: Seq<char>,
    q13: int,
    q14: int,
    v14: Seq<char>,
    q15: int,
)
    requires
        0 <= q1 <= s.len(),
        s.subrange(0, q1) == "{\n  \"ExecutablePath\": "@,
        q1 <= q2 <= s.len(),
        s.subrange(q1, q2) == quote(v2),
        q2 <= q3 <= s.len(),
        s.subrange(q2, q3) == ",\n  \"ProcCmdline\": "@,
        q3 <= q4 <= s.len(),
        s.subrange(q3, q4) == quote(v4),
        q4 <= q5 <= s.len(),
        s.subrange(q4, q5) == ",\n  \"OsInfo\": "@,
        q5 <= q6 <= s.len(),
        s.subrange(q5, q6) == quote(v6),
        q6 <= q7 <= s.len(),
        s.subrange(q6, q7) == ",\n  \"CrashSeverity\": {\n    \"Type\": "@,
        q7 <= q8 <= s.len(),
        s.subrange(q7, q8) == quote(v8),
        q8 <= q9 <= s.len(),
        s.subrange(q8, q9) == ",\n    \"ShortDescription\": "@,
        q9 <= q10 <= s.len(),
        s.subrange(q9, q10) == quote(v10),
        q10 <= q11 <= s.len(),
        s.subrange(q10, q11) == ",\n    \"Description\": "@,
        q11 <= q12 <= s.len(),
        s.subrange(q11, q12) == quote(v12),
        q12 <= q13 <= s.len(),
        s.subrange(q12, q13) == ",\n    \"Explanation\": "@,
        q13 <= q14 <= s.len(),
        s.subrange(q13, q14) == quote(v14),
        q14 <= q15 <= s.len(),
        s.subrange(q14, q15) == "\n  },\n  \"AsanReport\": "@,
        forall|u: Seq<Seq<char>>, rest: Seq<char>| s.subrange(q15, s.len() as int) != arr_of(u) + rest,
    ensures
        forall|m: ReportSpec| s != json_of(m),
{
    assert forall|m: ReportSpec| s != json_of(m) by {
        if s == json_of(m) {
            lemma_json_right(m);
            assert(s.subrange(0, s.len() as int) =~= s);
            lemma_peel_lit(s, 0, q1, "{\n  \"ExecutablePath\": "@, jtail2(m));
            lemma_peel_quote(s, q1, q2, v2, m.executable_path, jtail3(m));
            lemma_peel_lit(s, q2, q3, ",\n  \"ProcCmdline\": "@, jtail4(m));
            lemma_peel_quote(s, q3, q4, v4, m.proc_cmdline, jtail5(m));
            lemma_peel_lit(s, q4, q5, ",\n  \"OsInfo\": "@, jtail6(m));
            lemma_peel_quote(s, q5, q6, v6, m.os_info, jtail7(m));
            lemma_peel_lit(s, q6, q7, ",\n  \"CrashSeverity\": {\n    \"Type\": "@, jtail8(m));
            lemma_peel_quote(s, q7, q8, v8, m.execution_class.severity, jtail9(m));
            lemma_peel_lit(s, q8, q9, ",\n    \"ShortDescription\": "@, jtail10(m));
            lemma_peel_quote(s, q9, q10, v10, m.execution_class.short_description, jtail11(m));
            lemma_peel_lit(s, q10, q11, ",\n    \"Description\": "@, jtail12(m));
            lemma_peel_quote(s, q11, q12, v12, m.execution_class.description, jtail13(m));
            lemma_peel_lit(s, q12, q13, ",\n    \"Explanation\": "@, jtail14(m));
            lemma_peel_quote(s, q13, q14, v14, m.execution_class.explanation, jtail15(m));
            lemma_peel_lit(s, q14, q15, "\n  },\n  \"AsanReport\": "@, jtail16(m));
            assert(s.subrange(q15, s.len() as int) != arr_of(m.asan_report) + jtail17(m));
            assert(false);
        }
    }
}

/// A mismatch while reading piece 17 of the form rules out every report.
proof fn lemma_no_report_17(
    s: Seq<char>,
    q1: int,
    q2: int,
    v2: Seq<char>,
    q3: int,
    q4: int,
    v4: Seq<char>,
    q5: int,
    q6: int,
    v6: Seq<char>,
    q7: int,
    q8: int,
    v8: Seq<char>,
    q9: int,
    q10: int,
    v10: Seq<char>,
    q11: int,
    q12: int,
    v12: Seq<char>,
    q13: int,
    q14: int,
    v14: Seq<char>,
    q15: int,
    q16: int,
    a16: Seq<Seq<char>>,
)
    requires
        0 <= q1 <= s.len(),
        s.subrange(0, q1) == "{\n  \"ExecutablePath\": "@,
        q1 <= q2 <= s.len(),
        s.subrange(q1, q2) == quote(v2),
        q2 <= q3 <= s.len(),
        s.subrange(q2, q3) == ",\n  \"ProcCmdline\": "@,
        q3 <= q4 <= s.len(),
        s.subrange(q3, q4) == quote(v4),
        q4 <= q5 <= s.len(),
        s.subrange(q4, q5) == ",\n  \"OsInfo\": "@,
        q5 <= q6 <= s.len(),
        s.subrange(q5, q6) == quote(v6),
        q6 <= q7 <= s.len(),
        s.subrange(q6, q7) == ",\n  \"CrashSeverity\": {\n    \"Type\": "@,
        q7 <= q8 <= s.len(),
        s.subrange(q7, q8) == quote(v8),
        q8 <= q9 <= s.len(),
        s.subrange(q8, q9) == ",\n    \"ShortDescription\": "@,
        q9 <= q10 <= s.len(),
        s.subrange(q9, q10) == quote(v10),
        q10 <= q11 <= s.len(),
        s.subrange(q10, q11) == ",\n    \"Description\": "@,
        q11 <= q12 <= s.len(),
        s.subrange(q11, q12) == quote(v12),
        q12 <= q13 <= s.len(),
        s.subrange(q12, q13) == ",\n    \"Explanation\": "@,
        q13 <= q14 <= s.len(),
        s.subrange(q13, q14) == quote(v14),
        q14 <= q15 <= s.len(),
        s.subrange(q14, q15) == "\n  },\n  \"AsanReport\": "@,
        q15 <= q16 <= s.len(),
        s.subrange(q15, q16) == arr_of(a16),
        !matches_at(s, ",\n  \"Stacktrace\": "@, q16),
    ensures
        forall|m: ReportSpec| s != json_of(m),
{
    assert forall|m: ReportSpec| s != json_of(m) by {
        if s == json_of(m) {
            lemma_json_right(m);
            assert(s.subrange(0, s.len() as int) =~= s);
            lemma_peel_lit(s, 0, q1, "{\n  \"ExecutablePath\": "@, jtail2(m));
            lemma_peel_quote(s, q1, q2, v2, m.executable_path, jtail3(m));
            lemma_peel_lit(s, q2, q3, ",\n  \"ProcCmdline\": "@, jtail4(m));
            lemma_peel_quote(s, q3, q4, v4, m.proc_cmdline, jtail5(m));
            lemma_peel_lit(s, q4, q5, ",\n  \"OsInfo\": "@, jtail6(m));
            lemma_peel_quote(s, q5, q6, v6, m.os_info, jtail7(m));
            lemma_peel_lit(s, q6, q7, ",\n  \"CrashSeverity\": {\n    \"Type\": "@, jtail8(m));
            lemma_peel_quote(s, q7, q8, v8, m.execution_class.severity, jtail9(m));
            lemma_peel_lit(s, q8, q9, ",\n    \"ShortDescription\": "@, jtail10(m));
            lemma_peel_quote(s, q9, q10, v10, m.execution_class.short_description, jtail11(m));
            lemma_peel_lit(s, q10, q11, ",\n    \"Description\": "@, jtail12(m));
            lemma_peel_quote(s, q11, q12, v12, m.execution_class.description, jtail13(m));
            lemma_peel_lit(s, q12, q13, ",\n    \"Explanation\": "@, jtail14(m));
            lemma_peel_quote(s, q13, q14, v14, m.execution_class.explanation, jtail15(m));
            lemma_peel_lit(s, q14, q15, "\n  },\n  \"AsanReport\": "@, jtail16(m));
            lemma_peel_arr(s, q15, q16, a16, m.asan_report, jtail17(m));
            lemma_lit_present(s, q16, ",\n  \"Stacktrace\": "@, jtail18(m));
            assert(false);
        }
    }
}

/// A mismatch while reading piece 18 of the form rules out every report.
proof fn lemma_no_report_18(
    s: Seq<char>,
    q1: int,
    q2: int,
    v2: Seq<char>,
    q3: int,
    q4: int,
    v4: Seq<char>,
    q5: int,
    q6: int,
    v6: Seq<char>,
    q7: int,
    q8: int,
    v8: Seq<char>,
    q9: int,
    q10: int,
    v10: Seq<char>,
    q11: int,
    q12: int,
    v12: Seq<char>,
    q13: int,
    q14: int,
    v14: Seq<char>,
    q15: int,
    q16: int,
    a16: Seq<Seq<char>>,
    q17: int,
)
    requires
        0 <= q1 <= s.len(),
        s.subrange(0, q1) == "{\n  \"ExecutablePath\": "@,
        q1 <= q2 <= s.len(),
        s.subrange(q1, q2) == quote(v2),
        q2 <= q3 <= s.len(),
        s.subrange(q2, q3) == ",\n  \"ProcCmdline\": "@,
        q3 <= q4 <= s.len(),
        s.subrange(q3, q4) == quote(v4),
        q4 <= q5 <= s.len(),
        s.subrange(q4, q5) == ",\n  \"OsInfo\": "@,
        q5 <= q6 <= s.len(),
        s.subrange(q5, q6) == quote(v6),
        q6 <= q7 <= s.len(),
        s.subrange(q6, q7) == ",\n  \"CrashSeverity\": {\n    \"Type\": "@,
        q7 <= q8 <= s.len(),
        s.subrange(q7, q8) == quote(v8),
        q8 <= q9 <= s.len(),
        s.subrange(q8, q9) == ",\n    \"ShortDescription\": "@,
        q9 <= q10 <= s.len(),
        s.subrange(q9, q10) == quote(v10),
        q10 <= q11 <= s.len(),
        s.subrange(q10, q11) == ",\n    \"Description\": "@,
        q11 <= q12 <= s.len(),
        s.subrange(q11, q12) == quote(v12),
        q12 <= q13 <= s.len(),
        s.subrange(q12, q13) == ",\n    \"Explanation\": "@,
        q13 <= q14 <= s.len(),
        s.subrange(q13, q14) == quote(v14),
        q14 <= q15 <= s.len(),
        s.subrange(q14, q15) == "\n  },\n  \"AsanReport\": "@,
        q15 <= q16 <= s.len(),
        s.subrange(q15, q16) == arr_of(a16),
        q16 <= q17 <= s.len(),
        s.subrange(q16, q17) == ",\n  \"Stacktrace\": "@,
        forall|u: Seq<Seq<char>>, rest: Seq<char>| s.subrange(q17, s.len() as int) != arr_of(u) + rest,
    ensures
        forall|m: ReportSpec| s != json_of(m),
{
    assert forall|m: ReportSpec| s != json_of(m) by {
        if s == json_of(m) {
            lemma_json_right(m);
            assert(s.subrange(0, s.len() as int) =~= s);
            lemma_peel_lit(s, 0, q1, "{\n  \"ExecutablePath\": "@, jtail2(m));
            lemma_peel_quote(s, q1, q2, v2, m.executable_path, jtail3(m));
            lemma_peel_lit(s, q2, q3, ",\n  \"ProcCmdline\": "@, jtail4(m));
            lemma_peel_quote(s, q3, q4, v4, m.proc_cmdline, jtail5(m));
            lemma_peel_lit(s, q4, q5, ",\n  \"OsInfo\": "@, jtail6(m));
            lemma_peel_quote(s, q5, q6, v6, m.os_info, jtail7(m));
            lemma_peel_lit(s, q6, q7, ",\n  \"CrashSeverity\": {\n    \"Type\": "@, jtail8(m));
            lemma_peel_quote(s, q7, q8, v8, m.execution_class.severity, jtail9(m));
            lemma_peel_lit(s, q8, q9, ",\n    \"ShortDescription\": "@, jtail10(m));
            lemma_peel_quote(s, q9, q10, v10, m.execution_class.short_description, jtail11(m));
            lemma_peel_lit(s, q10, q11, ",\n    \"Description\": "@, jtail12(m));
            lemma_peel_quote(s, q11, q12, v12, m.execution_class.description, jtail13(m));
            lemma_peel_lit(s, q12, q13, ",\n    \"Explanation\": "@, jtail14(m));
            lemma_peel_quote(s, q13, q14, v14, m.execution_class.explanation, jtail15(m));
            lemma_peel_lit(s, q14, q15, "\n  },\n  \"AsanReport\": "@, jtail16(m));
            lemma_peel_arr(s, q15, q16, a16, m.asan_report, jtail17(m));
            lemma_peel_lit(s, q16, q17, ",\n  \"Stacktrace\": "@, jtail18(m));
            assert(s.subrange(q17, s.len() as int) != arr_of(m.stacktrace) + jtail19(m));
            assert(false);
        }
    }
}

/// A mismatch while reading piece 19 of the form rules out every report.
proof fn lemma_no_report_19(
    s: Seq<char>,
    q1: int,
    q2: int,
    v2: Seq<char>,
    q3: int,
    q4: int,
    v4: Seq<char>,
    q5: int,
    q6: int,
    v6: Seq<char>,
    q7: int,
    q8: int,
    v8: Seq<char>,
    q9: int,
    q10: int,
    v10: Seq<char>,
    q11: int,
    q12: int,
    v12: Seq<char>,
    q13: int,
    q14: int,
    v14: Seq<char>,
    q15: int,
    q16: int,
    a16: Seq<Seq<char>>,
    q17: int,
    q18: int,
    a18: Seq<Seq<char>>,
)
    requires
        0 <= q1 <= s.len(),
        s.subrange(0, q1) == "{\n  \"ExecutablePath\": "@,
        q1 <= q2 <= s.len(),
        s.subrange(q1, q2) == quote(v2),
        q2 <= q3 <= s.len(),
        s.subrange(q2, q3) == ",\n  \"ProcCmdline\": "@,
        q3 <= q4 <= s.len(),
        s.subrange(q3, q4) == quote(v4),
        q4 <= q5 <= s.len(),
        s.subrange(q4, q5) == ",\n  \"OsInfo\": "@,
        q5 <= q6 <= s.len(),
        s.subrange(q5, q6) == quote(v6),
        q6 <= q7 <= s.len(),
        s.subrange(q6, q7) == ",\n  \"CrashSeverity\": {\n    \"Type\": "@,
        q7 <= q8 <= s.len(),
        s.subrange(q7, q8) == quote(v8),
        q8 <= q9 <= s.len(),
        s.subrange(q8, q9) == ",\n    \"ShortDescription\": "@,
        q9 <= q10 <= s.len(),
        s.subrange(q9, q10) == quote(v10),
        q10 <= q11 <= s.len(),
        s.subrange(q10, q11) == ",\n    \"Description\": "@,
        q11 <= q12 <= s.len(),
        s.subrange(q11, q12) == quote(v12),
        q12 <= q13 <= s.len(),
        s.subrange(q12, q13) == ",\n    \"Explanation\": "@,
        q13 <= q14 <= s.len(),
        s.subrange(q13, q14) == quote(v14),
        q14 <= q15 <= s.len(),
        s.subrange(q14, q15) == "\n  },\n  \"AsanReport\": "@,
        q15 <= q16 <= s.len(),
        s.subrange(q15, q16) == arr_of(a16),
        q16 <= q17 <= s.len(),
        s.subrange(q16, q17) == ",\n  \"Stacktrace\": "@,
        q17 <= q18 <= s.len(),
        s.subrange(q17, q18) == arr_of(a18),
        !matches_at(s, ",\n  \"ProcMaps\": "@, q18),
    ensures
        forall|m: ReportSpec| s != json_of(m),
{
    assert forall|m: ReportSpec| s != json_of(m) by {
        if s == json_of(m) {
            lemma_json_right(m);
            assert(s.subrange(0, s.len() as int) =~= s);
            lemma_peel_lit(s, 0, q1, "{\n  \"ExecutablePath\": "@, jtail2(m));
            lemma_peel_quote(s, q1, q2, v2, m.executable_path, jtail3(m));
            lemma_peel_lit(s, q2, q3, ",\n  \"ProcCmdline\": "@, jtail4(m));
            lemma_peel_quote(s, q3, q4, v4, m.proc_cmdline, jtail5(m));
            lemma_peel_lit(s, q4, q5, ",\n  \"OsInfo\": "@, jtail6(m));
            lemma_peel_quote(s, q5, q6, v6, m.os_info, jtail7(m));
            lemma_peel_lit(s, q6, q7, ",\n  \"CrashSeverity\": {\n    \"Type\": "@, jtail8(m));
            lemma_peel_quote(s, q7, q8, v8, m.execution_class.severity, jtail9(m));
            lemma_peel_lit(s, q8, q9, ",\n    \"ShortDescription\": "@, jtail10(m));
            lemma_peel_quote(s, q9, q10, v10, m.execution_class.short_description, jtail11(m));
            lemma_peel_lit(s, q10, q11, ",\n    \"Description\": "@, jtail12(m));
            lemma_peel_quote(s, q11, q12, v12, m.execution_class.description, jtail13(m));
            lemma_peel_lit(s, q12, q13, ",\n    \"Explanation\": "@, jtail14(m));
            lemma_peel_quote(s, q13, q14, v14, m.execution_class.explanation, jtail15(m));
            lemma_peel_lit(s, q14, q15, "\n  },\n  \"AsanReport\": "@, jtail16(m));
            lemma_peel_arr(s, q15, q16, a16, m.asan_report, jtail17(m));
            lemma_peel_lit(s, q16, q17, ",\n  \"Stacktrace\": "@, jtail18(m));
            lemma_peel_arr(s, q17, q18, a18, m.stacktrace, jtail19(m));
            lemma_lit_present(s, q18, ",\n  \"ProcMaps\": "@, jtail20(m));
            assert(false);
        }
    }
}

/// A mismatch while reading piece 20 of the form rules out every report.
proof fn lemma_no_report_20(
    s: Seq<char>,
    q1: int,
    q2: int,
    v2: Seq<char>,
    q3: int,
    q4: int,
    v4: Seq<char>,
    q5: int,
    q6: int,
    v6: Seq<char>,
    q7: int,
    q8: int,
    v8: Seq<char>,
    q9: int,
    q10: int,
    v10: Seq<char>,
    q11: int,
    q12: int,
    v12: Seq<char>,
    q13: int,
    q14: int,
    v14: Seq<char>,
    q15: int,
    q16: int,
    a16: Seq<Seq<char>>,
    q17: int,
    q18: int,
    a18: Seq<Seq<char>>,
    q19: int,
)
    requires
        0 <= q1 <= s.len(),
        s.subrange(0, q1) == "{\n  \"ExecutablePath\": "@,
        q1 <= q2 <= s.len(),
        s.subrange(q1, q2) == quote(v2),
        q2 <= q3 <= s.len(),
        s.subrange(q2, q3) == ",\n  \"ProcCmdline\": "@,
        q3 <= q4 <= s.len(),
        s.subrange(q3, q4) == quote(v4),
        q4 <= q5 <= s.len(),
        s.subrange(q4, q5) == ",\n  \"OsInfo\": "@,
        q5 <= q6 <= s.len(),
        s.subrange(q5, q6) == quote(v6),
        q6 <= q7 <= s.len(),
        s.subrange(q6, q7) == ",\n  \"CrashSeverity\": {\n    \"Type\": "@,
        q7 <= q8 <= s.len(),
        s.subrange(q7, q8) == quote(v8),
        q8 <= q9 <= s.len(),
        s.subrange(q8, q9) == ",\n    \"ShortDescription\": "@,
        q9 <= q10 <= s.len(),
        s.subrange(q9, q10) == quote(v10),
        q10 <= q11 <= s.len(),
        s.subrange(q10, q11) == ",\n    \"Description\": "@,
        q11 <= q12 <= s.len(),
        s.subrange(q11, q12) == quote(v12),
        q12 <= q13 <= s.len(),
        s.subrange(q12, q13) == ",\n    \"Explanation\": "@,
        q13 <= q14 <= s.len(),
        s.subrange(q13, q14) == quote(v14),
        q14 <= q15 <= s.len(),
        s.subrange(q14, q15) == "\n  },\n  \"AsanReport\": "@,
        q15 <= q16 <= s.len(),
        s.subrange(q15, q16) == arr_of(a16),
        q16 <= q17 <= s.len(),
        s.subrange(q16, q17) == ",\n  \"Stacktrace\": "@,
        q17 <= q18 <= s.len(),
        s.subrange(q17, q18) == arr_of(a18),
        q18 <= q19 <= s.len(),
        s.subrange(q18, q19) == ",\n  \"ProcMaps\": "@,
        forall|u: Seq<Seq<char>>, rest: Seq<char>| s.subrange(q19, s.len() as int) != arr_of(u) + rest,
    ensures
        forall|m: ReportSpec| s != json_of(m),
{
    assert forall|m: ReportSpec| s != json_of(m) by {
        if s == json_of(m) {
            lemma_json_right(m);
            assert(s.subrange(0, s.len() as int) =~= s);
            lemma_peel_lit(s, 0, q1, "{\n  \"ExecutablePath\": "@, jtail2(m));
            lemma_peel_quote(s, q1, q2, v2, m.executable_path, jtail3(m));
            lemma_peel_lit(s, q2, q3, ",\n  \"ProcCmdline\": "@, jtail4(m));
            lemma_peel_quote(s, q3, q4, v4, m.proc_cmdline, jtail5(m));
            lemma_peel_lit(s, q4, q5, ",\n  \"OsInfo\": "@, jtail6(m));
            lemma_peel_quote(s, q5, q6, v6, m.os_info, jtail7(m));
            lemma_peel_lit(s, q6, q7, ",\n  \"CrashSeverity\": {\n    \"Type\": "@, jtail8(m));
            lemma_peel_quote(s, q7, q8, v8, m.execution_class.severity, jtail9(m));
            lemma_peel_lit(s, q8, q9, ",\n    \"ShortDescription\": "@, jtail10(m));
            lemma_peel_quote(s, q9, q10, v10, m.execution_class.short_description, jtail11(m));
            lemma_peel_lit(s, q10, q11, ",\n    \"Description\": "@, jtail12(m));
            lemma_peel_quote(s, q11, q12, v12, m.execution_class.description, jtail13(m));
            lemma_peel_lit(s, q12, q13, ",\n    \"Explanation\": "@, jtail14(m));
            lemma_peel_quote(s, q13, q14, v14, m.execution_class.explanation, jtail15(m));
            lemma_peel_lit(s, q14, q15, "\n  },\n  \"AsanReport\": "@, jtail16(m));
            lemma_peel_arr(s, q15, q16, a16, m.asan_report, jtail17(m));
            lemma_peel_lit(s, q16, q17, ",\n  \"Stacktrace\": "@, jtail18(m));
            lemma_peel_arr(s, q17, q18, a18, m.stacktrace, jtail19(m));
            lemma_peel_lit(s, q18, q19, ",\n  \"ProcMaps\": "@, jtail20(m));
            assert(s.subrange(q19, s.len() as int) != arr_of(m.proc_maps) + jtail21(m));
            assert(false);
        }
    }
}

/// A mismatch while reading piece 21 of the form rules out every report.
proof fn lemma_no_report_21(
    s: Seq<char>,
    q1: int,
    q2: int,
    v2: Seq<char>,
    q3: int,
    q4: int,
    v4: Seq<char>,
    q5: int,
    q6: int,
    v6: Seq<char>,
    q7: int,
    q8: int,
    v8: Seq<char>,
    q9: int,
    q10: int,
    v10: Seq<char>,
    q11: int,
    q12: int,
    v12: Seq<char>,
    q13: int,
    q14: int,
    v14: Seq<char>,
    q15: int,
    q16: int,
    a16: Seq<Seq<char>>,
    q17: int,
    q18: int,
    a18: Seq<Seq<char>>,
    q19: int,
    q20: int,
    a20: Seq<Seq<char>>,
)
    requires
        0 <= q1 <= s.len(),
        s.subrange(0, q1) == "{\n  \"ExecutablePath\": "@,
        q1 <= q2 <= s.len(),
        s.subrange(q1, q2) == quote(v2),
        q2 <= q3 <= s.len(),
        s.subrange(q2, q3) == ",\n  \"ProcCmdline\": "@,
        q3 <= q4 <= s.len(),
        s.subrange(q3, q4) == quote(v4),
        q4 <= q5 <= s.len(),
        s.subrange(q4, q5) == ",\n  \"OsInfo\": "@,
        q5 <= q6 <= s.len(),
        s.subrange(q5, q6) == quote(v6),
        q6 <= q7 <= s.len(),
        s.subrange(q6, q7) == ",\n  \"CrashSeverity\": {\n    \"Type\": "@,
        q7 <= q8 <= s.len(),
        s.subrange(q7, q8) == quote(v8),
        q8 <= q9 <= s.len(),
        s.subrange(q8, q9) == ",\n    \"ShortDescription\": "@,
        q9 <= q10 <= s.len(),
        s.subrange(q9, q10) == quote(v10),
        q10 <= q11 <= s.len(),
        s.subrange(q10, q11) == ",\n    \"Description\": "@,
        q11 <= q12 <= s.len(),
        s.subrange(q11, q12) == quote(v12),
        q12 <= q13 <= s.len(),
        s.subrange(q12, q13) == ",\n    \"Explanation\": "@,
        q13 <= q14 <= s.len(),
        s.subrange(q13, q14) == quote(v14),
        q14 <= q15 <= s.len(),
        s.subrange(q14, q15) == "\n  },\n  \"AsanReport\": "@,
        q15 <= q16 <= s.len(),
        s.subrange(q15, q16) == arr_of(a16),
        q16 <= q17 <= s.len(),
        s.subrange(q16, q17) == ",\n  \"Stacktrace\": "@,
        q17 <= q18 <= s.len(),
        s.subrange(q17, q18) == arr_of(a18),
        q18 <= q19 <= s.len(),
        s.subrange(q18, q19) == ",\n  \"ProcMaps\": "@,
        q19 <= q20 <= s.len(),
        s.subrange(q19, q20) == arr_of(a20),
        !matches_at(s, ",\n  \"CrashLine\": "@, q20),
    ensures
        forall|m: ReportSpec| s != json_of(m),
{
    assert forall|m: ReportSpec| s != json_of(m) by {
        if s == json_of(m) {
            lemma_json_right(m);
            assert(s.subrange(0, s.len() as int) =~= s);
            lemma_peel_lit(s, 0, q1, "{\n  \"ExecutablePath\": "@, jtail2(m));
            lemma_peel_quote(s, q1, q2, v2, m.executable_path, jtail3(m));
            lemma_peel_lit(s, q2, q3, ",\n  \"ProcCmdline\": "@, jtail4(m));
            lemma_peel_quote(s, q3, q4, v4, m.proc_cmdline, jtail5(m));
            lemma_peel_lit(s, q4, q5, ",\n  \"OsInfo\": "@, jtail6(m));
            lemma_peel_quote(s, q5, q6, v6, m.os_info, jtail7(m));
            lemma_peel_lit(s, q6, q7, ",\n  \"CrashSeverity\": {\n    \"Type\": "@, jtail8(m));
            lemma_peel_quote(s, q7, q8, v8, m.execution_class.severity, jtail9(m));
            lemma_peel_lit(s, q8, q9, ",\n    \"ShortDescription\": "@, jtail10(m));
            lemma_peel_quote(s, q9, q10, v10, m.execution_class.short_description, jtail11(m));
            lemma_peel_lit(s, q10, q11, ",\n    \"Description\": "@, jtail12(m));
            lemma_peel_quote(s, q11, q12, v12, m.execution_class.description, jtail13(m));
            lemma_peel_lit(s, q12, q13, ",\n    \"Explanation\": "@, jtail14(m));
            lemma_peel_quote(s, q13, q14, v14, m.execution_class.explanation, jtail15(m));
            lemma_peel_lit(s, q14, q15, "\n  },\n  \"AsanReport\": "@, jtail16(m));
            lemma_peel_arr(s, q15, q16, a16, m.asan_report, jtail17(m));
            lemma_peel_lit(s, q16, q17, ",\n  \"Stacktrace\": "@, jtail18(m));
            lemma_peel_arr(s, q17, q18, a18, m.stacktrace, jtail19(m));
            lemma_peel_lit(s, q18, q19, ",\n  \"ProcMaps\": "@, jtail20(m));
            lemma_peel_arr(s, q19, q20, a20, m.proc_maps, jtail21(m));
            lemma_lit_present(s, q20, ",\n  \"CrashLine\": "@, jtail22(m));
            assert(false);
        }
    }
}

/// A mismatch while reading piece 22 of the form rules out every report.
proof fn lemma_no_report_22(
    s: Seq<char>,
    q1: int,
    q2: int,
    v2: Seq<char>,
    q3: int,
    q4: int,
    v4: Seq<char>,
    q5: int,
    q6: int,
    v6: Seq<char>,
    q7: int,
    q8: int,
    v8: Seq<char>,
    q9: int,
    q10: int,
    v10: Seq<char>,
    q11: int,
    q12: int,
    v12: Seq<char>,
    q13: int,
    q14: int,
    v14: Seq<char>,
    q15: int,
    q16: int,
    a16: Seq<Seq<char>>,
    q17: int,
    q18: int,
    a18: Seq<Seq<char>>,
    q19: int,
    q20: int,
    a20: Seq<Seq<char>>,
    q21: int,
)
    requires
        0 <= q1 <= s.len(),
        s.subrange(0, q1) == "{\n  \"ExecutablePath\": "@,
        q1 <= q2 <= s.len(),
        s.subrange(q1, q2) == quote(v2),
        q2 <= q3 <= s.len(),
        s.subrange(q2, q3) == ",\n  \"ProcCmdline\": "@,
        q3 <= q4 <= s.len(),
        s.subrange(q3, q4) == quote(v4),
        q4 <= q5 <= s.len(),
        s.subrange(q4, q5) == ",\n  \"OsInfo\": "@,
        q5 <= q6 <= s.len(),
        s.subrange(q5, q6) == quote(v6),
        q6 <= q7 <= s.len(),
        s.subrange(q6, q7) == ",\n  \"CrashSeverity\": {\n    \"Type\": "@,
        q7 <= q8 <= s.len(),
        s.subrange(q7, q8) == quote(v8),
        q8 <= q9 <= s.len(),
        s.subrange(q8, q9) == ",\n    \"ShortDescription\": "@,
        q9 <= q10 <= s.len(),
        s.subrange(q9, q10) == quote(v10),
        q10 <= q11 <= s.len(),
        s.subrange(q10, q11) == ",\n    \"Description\": "@,
        q11 <= q12 <= s.len(),
        s.subrange(q11, q12) == quote(v12),
        q12 <= q13 <= s.len(),
        s.subrange(q12, q13) == ",\n    \"Explanation\": "@,
        q13 <= q14 <= s.len(),
        s.subrange(q13, q14) == quote(v14),
        q14 <= q15 <= s.len(),
        s.subrange(q14, q15) == "\n  },\n  \"AsanReport\": "@,
        q15 <= q16 <= s.len(),
        s.subrange(q15, q16) == arr_of(a16),
        q16 <= q17 <= s.len(),
        s.subrange(q16, q17) == ",\n  \"Stacktrace\": "@,
        q17 <= q18 <= s.len(),
        s.subrange(q17, q18) == arr_of(a18),
        q18 <= q19 <= s.len(),
        s.subrange(q18, q19) == ",\n  \"ProcMaps\": "@,
        q19 <= q20 <= s.len(),
        s.subrange(q19, q20) == arr_of(a20),
        q20 <= q21 <= s.len(),
        s.subrange(q20, q21) == ",\n  \"CrashLine\": "@,
        forall|w: Seq<char>, rest: Seq<char>| s.subrange(q21, s.len() as int) != quote(w) + rest,
    ensures
        forall|m: ReportSpec| s != json_of(m),
{
    assert forall|m: ReportSpec| s != json_of(m) by {
        if s == json_of(m) {
            lemma_json_right(m);
            assert(s.subrange(0, s.len() as int) =~= s);
            lemma_peel_lit(s, 0, q1, "{\n  \"ExecutablePath\": "@, jtail2(m));
            lemma_peel_quote(s, q1, q2, v2, m.executable_path, jtail3(m));
            lemma_peel_lit(s, q2, q3, ",\n  \"ProcCmdline\": "@, jtail4(m));
            lemma_peel_quote(s, q3, q4, v4, m.proc_cmdline, jtail5(m));
            lemma_peel_lit(s, q4, q5, ",\n  \"OsInfo\": "@, jtail6(m));
            lemma_peel_quote(s, q5, q6, v6, m.os_info, jtail7(m));
            lemma_peel_lit(s, q6, q7, ",\n  \"CrashSeverity\": {\n    \"Type\": "@, jtail8(m));
            lemma_peel_quote(s, q7, q8, v8, m.execution_class.severity, jtail9(m));
            lemma_peel_lit(s, q8, q9, ",\n    \"ShortDescription\": "@, jtail10(m));
            lemma_peel_quote(s, q9, q10, v10, m.execution_class.short_description, jtail11(m));
            lemma_peel_lit(s, q10, q11, ",\n    \"Description\": "@, jtail12(m));
            lemma_peel_quote(s, q11, q12, v12, m.execution_class.description, jtail13(m));
            lemma_peel_lit(s, q12, q13, ",\n    \"Explanation\": "@, jtail14(m));
            lemma_peel_quote(s, q13, q14, v14, m.execution_class.explanation, jtail15(m));
            lemma_peel_lit(s, q14, q15, "\n  },\n  \"AsanReport\": "@, jtail16(m));
            lemma_peel_arr(s, q15, q16, a16, m.asan_report, jtail17(m));
            lemma_peel_lit(s, q16, q17, ",\n  \"Stacktrace\": "@, jtail18(m));
            lemma_peel_arr(s, q17, q18, a18, m.stacktrace, jtail19(m));
            lemma_peel_lit(s, q18, q19, ",\n  \"ProcMaps\": "@, jtail20(m));
            lemma_peel_arr(s, q19, q20, a20, m.proc_maps, jtail21(m));
            lemma_peel_lit(s, q20, q21, ",\n  \"CrashLine\": "@, jtail22(m));
            assert(s.subrange(q21, s.len() as int) != quote(m.crashline) + jtail23(m));
            assert(false);
        }
    }
}

/// A mismatch while reading piece 23 of the form rules out every report.
proof fn lemma_no_report_23(
    s: Seq<char>,
    q1: int,
    q2: int,
    v2: Seq<char>,
    q3: int,
    q4: int,
    v4: Seq<char>,
    q5: int,
    q6: int,
    v6: Seq<char>,
    q7: int,
    q8: int,
    v8: Seq<char>,
    q9: int,
    q10: int,
    v10: Seq<char>,
    q11: int,
    q12: int,
    v12: Seq<char>,
    q13: int,
    q14: int,
    v14: Seq<char>,
    q15: int,
    q16: int,
    a16: Seq<Seq<char>>,
    q17: int,
    q18: int,
    a18: Seq<Seq<char>>,
    q19: int,
    q20: int,
    a20: Seq<Seq<char>>,
    q21: int,
    q22: int,
    v22: Seq<char>,
)
    requires
        0 <= q1 <= s.len(),
        s.subrange(0, q1) == "{\n  \"ExecutablePath\": "@,
        q1 <= q2 <= s.len(),
        s.subrange(q1, q2) == quote(v2),
        q2 <= q3 <= s.len(),
        s.subrange(q2, q3) == ",\n  \"ProcCmdline\": "@,
        q3 <= q4 <= s.len(),
        s.subrange(q3, q4) == quote(v4),
        q4 <= q5 <= s.len(),
        s.subrange(q4, q5) == ",\n  \"OsInfo\": "@,
        q5 <= q6 <= s.len(),
        s.subrange(q5, q6) == quote(v6),
        q6 <= q7 <= s.len(),
        s.subrange(q6, q7) == ",\n  \"CrashSeverity\": {\n    \"Type\": "@,
        q7 <= q8 <= s.len(),
        s.subrange(q7, q8) == quote(v8),
        q8 <= q9 <= s.len(),
        s.subrange(q8, q9) == ",\n    \"ShortDescription\": "@,
        q9 <= q10 <= s.len(),
        s.subrange(q9, q10) == quote(v10),
        q10 <= q11 <= s.len(),
        s.subrange(q10, q11) == ",\n    \"Description\": "@,
        q11 <= q12 <= s.len(),
        s.subrange(q11, q12) == quote(v12),
        q12 <= q13 <= s.len(),
        s.subrange(q12, q13) == ",\n    \"Explanation\": "@,
        q13 <= q14 <= s.len(),
        s.subrange(q13, q14) == quote(v14),
        q14 <= q15 <= s.len(),
        s.subrange(q14, q15) == "\n  },\n  \"AsanReport\": "@,
        q15 <= q16 <= s.len(),
        s.subrange(q15, q16) == arr_of(a16),
        q16 <= q17 <= s.len(),
        s.subrange(q16, q17) == ",\n  \"Stacktrace\": "@,
        q17 <= q18 <= s.len(),
        s.subrange(q17, q18) == arr_of(a18),
        q18 <= q19 <= s.len(),
        s.subrange(q18, q19) == ",\n  \"ProcMaps\": "@,
        q19 <= q20 <= s.len(),
        s.subrange(q19, q20) == arr_of(a20),
        q20 <= q21 <= s.len(),
        s.subrange(q20, q21) == ",\n  \"CrashLine\": "@,
        q21 <= q22 <= s.len(),
        s.subrange(q21, q22) == quote(v22),
        !matches_at(s, ",\n  \"Source\": "@, q22),
    ensures
        forall|m: ReportSpec| s != json_of(m),
{
    assert forall|m: ReportSpec| s != json_of(m) by {
        if s == json_of(m) {
            lemma_json_right(m);
            assert(s.subrange(0, s.len() as int) =~= s);
            lemma_peel_lit(s, 0, q1, "{\n  \"ExecutablePath\": "@, jtail2(m));
            lemma_peel_quote(s, q1, q2, v2, m.executable_path, jtail3(m));
            lemma_peel_lit(s, q2, q3, ",\n  \"ProcCmdline\": "@, jtail4(m));
            lemma_peel_quote(s, q3, q4, v4, m.proc_cmdline, jtail5(m));
            lemma_peel_lit(s, q4, q5, ",\n  \"OsInfo\": "@, jtail6(m));
            lemma_peel_quote(s, q5, q6, v6, m.os_info, jtail7(m));
            lemma_peel_lit(s, q6, q7, ",\n  \"CrashSeverity\": {\n    \"Type\": "@, jtail8(m));
            lemma_peel_quote(s, q7, q8, v8, m.execution_class.severity, jtail9(m));
            lemma_peel_lit(s, q8, q9, ",\n    \"ShortDescription\": "@, jtail10(m));
            lemma_peel_quote(s, q9, q10, v10, m.execution_class.short_description, jtail11(m));
            lemma_peel_lit(s, q10, q11, ",\n    \"Description\": "@, jtail12(m));
            lemma_peel_quote(s, q11, q12, v12, m.execution_class.description, jtail13(m));
            lemma_peel_lit(s, q12, q13, ",\n    \"Explanation\": "@, jtail14(m));
            lemma_peel_quote(s, q13, q14, v14, m.execution_class.explanation, jtail15(m));
            lemma_peel_lit(s, q14, q15, "\n  },\n  \"AsanReport\": "@, jtail16(m));
            lemma_peel_arr(s, q15, q16, a16, m.asan_report, jtail17(m));
            lemma_peel_lit(s, q16, q17, ",\n  \"Stacktrace\": "@, jtail18(m));
            lemma_peel_arr(s, q17, q18, a18, m.stacktrace, jtail19(m));
            lemma_peel_lit(s, q18, q19, ",\n  \"ProcMaps\": "@, jtail20(m));
            lemma_peel_arr(s, q19, q20, a20, m.proc_maps, jtail21(m));
            lemma_peel_lit(s, q20, q21, ",\n  \"CrashLine\": "@, jtail22(m));
            lemma_peel_quote(s, q21, q22, v22, m.crashline, jtail23(m));
            lemma_lit_present(s, q22, ",\n  \"Source\": "@, jtail24(m));
            assert(false);
        }
    }
}

/// A mismatch while reading piece 24 of the form rules out every report.
proof fn lemma_no_report_24(
    s: Seq<char>,
    q1: int,
    q2: int,
    v2: Seq<char>,
    q3: int,
    q4: int,
    v4: Seq<char>,
    q5: int,
    q6: int,
    v6: Seq<char>,
    q7: int,
    q8: int,
    v8: Seq<char>,
    q9: int,
    q10: int,
    v10: Seq<char>,
    q11: int,
    q12: int,
    v12: Seq<char>,
    q13: int,
    q14: int,
    v14: Seq<char>,
    q15: int,
    q16: int,
    a16: Seq<Seq<char>>,
    q17: int,
    q18: int,
    a18: Seq<Seq<char>>,
    q19: int,
    q20: int,
    a20: Seq<Seq<char>>,
    q21: int,
    q22: int,
    v22: Seq<char>,
    q23: int,
)
    requires
        0 <= q1 <= s.len(),
        s.subrange(0, q1) == "{\n  \"ExecutablePath\": "@,
        q1 <= q2 <= s.len(),
        s.subrange(q1, q2) == quote(v2),
        q2 <= q3 <= s.len(),
        s.subrange(q2, q3) == ",\n  \"ProcCmdline\": "@,
        q3 <= q4 <= s.len(),
        s.subrange(q3, q4) == quote(v4),
        q4 <= q5 <= s.len(),
        s.subrange(q4, q5) == ",\n  \"OsInfo\": "@,
        q5 <= q6 <= s.len(),
        s.subrange(q5, q6) == quote(v6),
        q6 <= q7 <= s.len(),
        s.subrange(q6, q7) == ",\n  \"CrashSeverity\": {\n    \"Type\": "@,
        q7 <= q8 <= s.len(),
        s.subrange(q7, q8) == quote(v8),
        q8 <= q9 <= s.len(),
        s.subrange(q8, q9) == ",\n    \"ShortDescription\": "@,
        q9 <= q10 <= s.len(),
        s.subrange(q9, q10) == quote(v10),
        q10 <= q11 <= s.len(),
        s.subrange(q10, q11) == ",\n    \"Description\": "@,
        q11 <= q12 <= s.len(),
        s.subrange(q11, q12) == quote(v12),
        q12 <= q13 <= s.len(),
        s.subrange(q12, q13) == ",\n    \"Explanation\": "@,
        q13 <= q14 <= s.len(),
        s.subrange(q13, q14) == quote(v14),
        q14 <= q15 <= s.len(),
        s.subrange(q14, q15) == "\n  },\n  \"AsanReport\": "@,
        q15 <= q16 <= s.len(),
        s.subrange(q15, q16) == arr_of(a16),
        q16 <= q17 <= s.len(),
        s.subrange(q16, q17) == ",\n  \"Stacktrace\": "@,
        q17 <= q18 <= s.len(),
        s.subrange(q17, q18) == arr_of(a18),
        q18 <= q19 <= s.len(),
        s.subrange(q18, q19) == ",\n  \"ProcMaps\": "@,
        q19 <= q20 <= s.len(),
        s.subrange(q19, q20) == arr_of(a20),
        q20 <= q21 <= s.len(),
        s.subrange(q20, q21) == ",\n  \"CrashLine\": "@,
        q21 <= q22 <= s.len(),
        s.subrange(q21, q22) == quote(v22),
        q22 <= q23 <= s.len(),
        s.subrange(q22, q23) == ",\n  \"Source\": "@,
        forall|u: Seq<Seq<char>>, rest: Seq<char>| s.subrange(q23, s.len() as int) != arr_of(u) + rest,
    ensures
        forall|m: ReportSpec| s != json_of(m),
{
    assert forall|m: ReportSpec| s != json_of(m) by {
        if s == json_of(m) {
            lemma_json_right(m);
            assert(s.subrange(0, s.len() as int) =~= s);
            lemma_peel_lit(s, 0, q1, "{\n  \"ExecutablePath\": "@, jtail2(m));
            lemma_peel_quote(s, q1, q2, v2, m.executable_path, jtail3(m));
            lemma_peel_lit(s, q2, q3, ",\n  \"ProcCmdline\": "@, jtail4(m));
            lemma_peel_quote(s, q3, q4, v4, m.proc_cmdline, jtail5(m));
            lemma_peel_lit(s, q4, q5, ",\n  \"OsInfo\": "@, jtail6(m));
            lemma_peel_quote(s, q5, q6, v6, m.os_info, jtail7(m));
            lemma_peel_lit(s, q6, q7, ",\n  \"CrashSeverity\": {\n    \"Type\": "@, jtail8(m));
            lemma_peel_quote(s, q7, q8, v8, m.execution_class.severity, jtail9(m));
            lemma_peel_lit(s, q8, q9, ",\n    \"ShortDescription\": "@, jtail10(m));
            lemma_peel_quote(s, q9, q10, v10, m.execution_class.short_description, jtail11(m));
            lemma_peel_lit(s, q10, q11, ",\n    \"Description\": "@, jtail12(m));
            lemma_peel_quote(s, q11, q12, v12, m.execution_class.description, jtail13(m));
            lemma_peel_lit(s, q12, q13, ",\n    \"Explanation\": "@, jtail14(m));
            lemma_peel_quote(s, q13, q14, v14, m.execution_class.explanation, jtail15(m));
            lemma_peel_lit(s, q14, q15, "\n  },\n  \"AsanReport\": "@, jtail16(m));
            lemma_peel_arr(s, q15, q16, a16, m.asan_report, jtail17(m));
            lemma_peel_lit(s, q16, q17, ",\n  \"Stacktrace\": "@, jtail18(m));
            lemma_peel_arr(s, q17, q18, a18, m.stacktrace, jtail19(m));
            lemma_peel_lit(s, q18, q19, ",\n  \"ProcMaps\": "@, jtail20(m));
            lemma_peel_arr(s, q19, q20, a20, m.proc_maps, jtail21(m));
            lemma_peel_lit(s, q20, q21, ",\n  \"CrashLine\": "@, jtail22(m));
            lemma_peel_quote(s, q21, q22, v22, m.crashline, jtail23(m));
            lemma_peel_lit(s, q22, q23, ",\n  \"Source\": "@, jtail24(m));
            assert(s.subrange(q23, s.len() as int) != arr_of(m.source) + jtail25(m));
            assert(false);
        }
    }
}

/// A mismatch while reading piece 25 of the form rules out every report.
proof fn lemma_no_report_25(
    s: Seq<char>,
    q1: int,
    q2: int,
    v2: Seq<char>,
    q3: int,
    q4: int,
    v4: Seq<char>,
    q5: int,
    q6: int,
    v6: Seq<char>,
    q7: int,
    q8: int,
    v8: Seq<char>,
    q9: int,
    q10: int,
    v10: Seq<char>,
    q11: int,
    q12: int,
    v12: Seq<char>,
    q13: int,
    q14: int,
    v14: Seq<char>,
    q15: int,
    q16: int,
    a16: Seq<Seq<char>>,
    q17: int,
    q18: int,
    a18: Seq<Seq<char>>,
    q19: int,
    q20: int,
    a20: Seq<Seq<char>>,
    q21: int,
    q22: int,
    v22: Seq<char>,
    q23: int,
    q24: int,
    a24: Seq<Seq<char>>,
)
    requires
        0 <= q1 <= s.len(),
        s.subrange(0, q1) == "{\n  \"ExecutablePath\": "@,
        q1 <= q2 <= s.len(),
        s.subrange(q1, q2) == quote(v2),
        q2 <= q3 <= s.len(),
        s.subrange(q2, q3) == ",\n  \"ProcCmdline\": "@,
        q3 <= q4 <= s.len(),
        s.subrange(q3, q4) == quote(v4),
        q4 <= q5 <= s.len(),
        s.subrange(q4, q5) == ",\n  \"OsInfo\": "@,
        q5 <= q6 <= s.len(),
        s.subrange(q5, q6) == quote(v6),
        q6 <= q7 <= s.len(),
        s.subrange(q6, q7) == ",\n  \"CrashSeverity\": {\n    \"Type\": "@,
        q7 <= q8 <= s.len(),
        s.subrange(q7, q8) == quote(v8),
        q8 <= q9 <= s.len(),
        s.subrange(q8, q9) == ",\n    \"ShortDescription\": "@,
        q9 <= q10 <= s.len(),
        s.subrange(q9, q10) == quote(v10),
        q10 <= q11 <= s.len(),
        s.subrange(q10, q11) == ",\n    \"Description\": "@,
        q11 <= q12 <= s.len(),
        s.subrange(q11, q12) == quote(v12),
        q12 <= q13 <= s.len(),
        s.subrange(q12, q13) == ",\n    \"Explanation\": "@,
        q13 <= q14 <= s.len(),
        s.subrange(q13, q14) == quote(v14),
        q14 <= q15 <= s.len(),
        s.subrange(q14, q15) == "\n  },\n  \"AsanReport\": "@,
        q15 <= q16 <= s.len(),
        s.subrange(q15, q16) == arr_of(a16),
        q16 <= q17 <= s.len(),
        s.subrange(q16, q17) == ",\n  \"Stacktrace\": "@,
        q17 <= q18 <= s.len(),
        s.subrange(q17, q18) == arr_of(a18),
        q18 <= q19 <= s.len(),
        s.subrange(q18, q19) == ",\n  \"ProcMaps\": "@,
        q19 <= q20 <= s.len(),
        s.subrange(q19, q20) == arr_of(a20),
        q20 <= q21 <= s.len(),
        s.subrange(q20, q21) == ",\n  \"CrashLine\": "@,
        q21 <= q22 <= s.len(),
        s.subrange(q21, q22) == quote(v22),
        q22 <= q23 <= s.len(),
        s.subrange(q22, q23) == ",\n  \"Source\": "@,
        q23 <= q24 <= s.len(),
        s.subrange(q23, q24) == arr_of(a24),
        !matches_at(s, "\n}"@, q24),
    ensures
        forall|m: ReportSpec| s != json_of(m),
{
    assert forall|m: ReportSpec| s != json_of(m) by {
        if s == json_of(m) {
            lemma_json_right(m);
            assert(s.subrange(0, s.len() as int) =~= s);
            lemma_peel_lit(s, 0, q1, "{\n  \"ExecutablePath\": "@, jtail2(m));
            lemma_peel_quote(s, q1, q2, v2, m.executable_path, jtail3(m));
            lemma_peel_lit(s, q2, q3, ",\n  \"ProcCmdline\": "@, jtail4(m));
            lemma_peel_quote(s, q3, q4, v4, m.proc_cmdline, jtail5(m));
            lemma_peel_lit(s, q4, q5, ",\n  \"OsInfo\": "@, jtail6(m));
            lemma_peel_quote(s, q5, q6, v6, m.os_info, jtail7(m));
            lemma_peel_lit(s, q6, q7, ",\n  \"CrashSeverity\": {\n    \"Type\": "@, jtail8(m));
            lemma_peel_quote(s, q7, q8, v8, m.execution_class.severity, jtail9(m));
            lemma_peel_lit(s, q8, q9, ",\n    \"ShortDescription\": "@, jtail10(m));
            lemma_peel_quote(s, q9, q10, v10, m.execution_class.short_description, jtail11(m));
            lemma_peel_lit(s, q10, q11, ",\n    \"Description\": "@, jtail12(m));
            lemma_peel_quote(s, q11, q12, v12, m.execution_class.description, jtail13(m));
            lemma_peel_lit(s, q12, q13, ",\n    \"Explanation\": "@, jtail14(m));
            lemma_peel_quote(s, q13, q14, v14, m.execution_class.explanation, jtail15(m));
            lemma_peel_lit(s, q14, q15, "\n  },\n  \"AsanReport\": "@, jtail16(m));
            lemma_peel_arr(s, q15, q16, a16, m.asan_report, jtail17(m));
            lemma_peel_lit(s, q16, q17, ",\n  \"Stacktrace\": "@, jtail18(m));
            lemma_peel_arr(s, q17, q18, a18, m.stacktrace, jtail19(m));
            lemma_peel_lit(s, q18, q19, ",\n  \"ProcMaps\": "@, jtail20(m));
            lemma_peel_arr(s, q19, q20, a20, m.proc_maps, jtail21(m));
            lemma_peel_lit(s, q20, q21, ",\n  \"CrashLine\": "@, jtail22(m));
            lemma_peel_quote(s, q21, q22, v22, m.crashline, jtail23(m));
            lemma_peel_lit(s, q22, q23, ",\n  \"Source\": "@, jtail24(m));
            lemma_peel_arr(s, q23, q24, a24, m.source, jtail25(m));
            assert(jtail25(m) =~= "\n}"@ + Seq::<char>::empty());
            lemma_lit_present(s, q24, "\n}"@, Seq::<char>::empty());
            assert(false);
        }
    }
}

/// After the whole form is consumed, trailing text rules out every report.
proof fn lemma_no_report_trailing(
    s: Seq<char>,
    q1: int,
    q2: int,
    v2: Seq<char>,
    q3: int,
    q4: int,
    v4: Seq<char>,
    q5: int,
    q6: int,
    v6: Seq<char>,
    q7: int,
    q8: int,
    v8: Seq<char>,
    q9: int,
    q10: int,
    v10: Seq<char>,
    q11: int,
    q12: int,
    v12: Seq<char>,
    q13: int,
    q14: int,
    v14: Seq<char>,
    q15: int,
    q16: int,
    a16: Seq<Seq<char>>,
    q17: int,
    q18: int,
    a18: Seq<Seq<char>>,
    q19: int,
    q20: int,
    a20: Seq<Seq<char>>,
    q21: int,
    q22: int,
    v22: Seq<char>,
    q23: int,
    q24: int,
    a24: Seq<Seq<char>>,
    q25: int,
)
    requires
        0 <= q1 <= s.len(),
        s.subrange(0, q1) == "{\n  \"ExecutablePath\": "@,
        q1 <= q2 <= s.len(),
        s.subrange(q1, q2) == quote(v2),
        q2 <= q3 <= s.len(),
        s.subrange(q2, q3) == ",\n  \"ProcCmdline\": "@,
        q3 <= q4 <= s.len(),
        s.subrange(q3, q4) == quote(v4),
        q4 <= q5 <= s.len(),
        s.subrange(q4, q5) == ",\n  \"OsInfo\": "@,
        q5 <= q6 <= s.len(),
        s.subrange(q5, q6) == quote(v6),
        q6 <= q7 <= s.len(),
        s.subrange(q6, q7) == ",\n  \"CrashSeverity\": {\n    \"Type\": "@,
        q7 <= q8 <= s.len(),
        s.subrange(q7, q8) == quote(v8),
        q8 <= q9 <= s.len(),
        s.subrange(q8, q9) == ",\n    \"ShortDescription\": "@,
        q9 <= q10 <= s.len(),
        s.subrange(q9, q10) == quote(v10),
        q10 <= q11 <= s.len(),
        s.subrange(q10, q11) == ",\n    \"Description\": "@,
        q11 <= q12 <= s.len(),
        s.subrange(q11, q12) == quote(v12),
        q12 <= q13 <= s.len(),
        s.subrange(q12, q13) == ",\n    \"Explanation\": "@,
        q13 <= q14 <= s.len(),
        s.subrange(q13, q14) == quote(v14),
        q14 <= q15 <= s.len(),
        s.subrange(q14, q15) == "\n  },\n  \"AsanReport\": "@,
        q15 <= q16 <= s.len(),
        s.subrange(q15, q16) == arr_of(a16),
        q16 <= q17 <= s.len(),
        s.subrange(q16, q17) == ",\n  \"Stacktrace\": "@,
        q17 <= q18 <= s.len(),
        s.subrange(q17, q18) == arr_of(a18),
        q18 <= q19 <= s.len(),
        s.subrange(q18, q19) == ",\n  \"ProcMaps\": "@,
        q19 <= q20 <= s.len(),
        s.subrange(q19, q20) == arr_of(a20),
        q20 <= q21 <= s.len(),
        s.subrange(q20, q21) == ",\n  \"CrashLine\": "@,
        q21 <= q22 <= s.len(),
        s.subrange(q21, q22) == quote(v22),
        q22 <= q23 <= s.len(),
        s.subrange(q22, q23) == ",\n  \"Source\": "@,
        q23 <= q24 <= s.len(),
        s.subrange(q23, q24) == arr_of(a24),
        q24 <= q25 <= s.len(),
        s.subrange(q24, q25) == "\n}"@,
        q25 != s.len(),
    ensures
        forall|m: ReportSpec| s != json_of(m),
{
    assert forall|m: ReportSpec| s != json_of(m) by {
        if s == json_of(m) {
            lemma_json_right(m);
            assert(s.subrange(0, s.len() as int) =~= s);
            lemma_peel_lit(s, 0, q1, "{\n  \"ExecutablePath\": "@, jtail2(m));
            lemma_peel_quote(s, q1, q2, v2, m.executable_path, jtail3(m));
            lemma_peel_lit(s, q2, q3, ",\n  \"ProcCmdline\": "@, jtail4(m));
            lemma_peel_quote(s, q3, q4, v4, m.proc_cmdline, jtail5(m));
            lemma_peel_lit(s, q4, q5, ",\n  \"OsInfo\": "@, jtail6(m));
            lemma_peel_quote(s, q5, q6, v6, m.os_info, jtail7(m));
            lemma_peel_lit(s, q6, q7, ",\n  \"CrashSeverity\": {\n    \"Type\": "@, jtail8(m));
            lemma_peel_quote(s, q7, q8, v8, m.execution_class.severity, jtail9(m));
            lemma_peel_lit(s, q8, q9, ",\n    \"ShortDescription\": "@, jtail10(m));
            lemma_peel_quote(s, q9, q10, v10, m.execution_class.short_description, jtail11(m));
            lemma_peel_lit(s, q10, q11, ",\n    \"Description\": "@, jtail12(m));
            lemma_peel_quote(s, q11, q12, v12, m.execution_class.description, jtail13(m));
            lemma_peel_lit(s, q12, q13, ",\n    \"Explanation\": "@, jtail14(m));
            lemma_peel_quote(s, q13, q14, v14, m.execution_class.explanation, jtail15(m));
            lemma_peel_lit(s, q14, q15, "\n  },\n  \"AsanReport\": "@, jtail16(m));
            lemma_peel_arr(s, q15, q16, a16, m.asan_report, jtail17(m));
            lemma_peel_lit(s, q16, q17, ",\n  \"Stacktrace\": "@, jtail18(m));
            lemma_peel_arr(s, q17, q18, a18, m.stacktrace, jtail19(m));
            lemma_peel_lit(s, q18, q19, ",\n  \"ProcMaps\": "@, jtail20(m));
            lemma_peel_arr(s, q19, q20, a20, m.proc_maps, jtail21(m));
            lemma_peel_lit(s, q20, q21, ",\n  \"CrashLine\": "@, jtail22(m));
            lemma_peel_quote(s, q21, q22, v22, m.crashline, jtail23(m));
            lemma_peel_lit(s, q22, q23, ",\n  \"Source\": "@, jtail24(m));
            lemma_peel_arr(s, q23, q24, a24, m.source, jtail25(m));
            reveal_strlit("\n}");
            assert(s.subrange(q24, s.len() as int).len() == 2);
            assert(s.subrange(q24, q25).len() == 2);
            assert(q25 == s.len());
            assert(false);
        }
    }
}


/// Sequence concatenation is associative.
proof fn lemma_assoc(x: Seq<char>, y: Seq<char>, z: Seq<char>)
    ensures
        (x + y) + z == x + (y + z),
{
    assert((x + y) + z =~= x + (y + z));
}

/// The serialized form from its last piece backwards: `jtail` of index
/// `k` is everything the form holds from its `k`-th piece on.
spec fn jtail25(m: ReportSpec) -> Seq<char> {
    "\n}"@
}

spec fn jtail24(m: ReportSpec) -> Seq<char> {
    arr_of(m.source) + jtail25(m)
}

spec fn jtail23(m: ReportSpec) -> Seq<char> {
    ",\n  \"Source\": "@ + jtail24(m)
}

spec fn jtail22(m: ReportSpec) -> Seq<char> {
    quote(m.crashline) + jtail23(m)
}

spec fn jtail21(m: ReportSpec) -> Seq<char> {
    ",\n  \"CrashLine\": "@ + jtail22(m)
}

spec fn jtail20(m: ReportSpec) -> Seq<char> {
    arr_of(m.proc_maps) + jtail21(m)
}

spec fn jtail19(m: ReportSpec) -> Seq<char> {
    ",\n  \"ProcMaps\": "@ + jtail20(m)
}

spec fn jtail18(m: ReportSpec) -> Seq<char> {
    arr_of(m.stacktrace) + jtail19(m)
}

spec fn jtail17(m: ReportSpec) -> Seq<char> {
    ",\n  \"Stacktrace\": "@ + jtail18(m)
}

spec fn jtail16(m: ReportSpec) -> Seq<char> {
    arr_of(m.asan_report) + jtail17(m)
}

spec fn jtail15(m: ReportSpec) -> Seq<char> {
    "\n  },\n  \"AsanReport\": "@ + jtail16(m)
}

spec fn jtail14(m: ReportSpec) -> Seq<char> {
    quote(m.execution_class.explanation) + jtail15(m)
}

spec fn jtail13(m: ReportSpec) -> Seq<char> {
    ",\n    \"Explanation\": "@ + jtail14(m)
}

spec fn jtail12(m: ReportSpec) -> Seq<char> {
    quote(m.execution_class.description) + jtail13(m)
}

spec fn jtail11(m: ReportSpec) -> Seq<char> {
    ",\n    \"Description\": "@ + jtail12(m)
}

spec fn jtail10(m: ReportSpec) -> Seq<char> {
    quote(m.execution_class.short_description) + jtail11(m)
}

spec fn jtail9(m: ReportSpec) -> Seq<char> {
    ",\n    \"ShortDescription\": "@ + jtail10(m)
}

spec fn jtail8(m: ReportSpec) -> Seq<char> {
    quote(m.execution_class.severity) + jtail9(m)
}

spec fn jtail7(m: ReportSpec) -> Seq<char> {
    ",\n  \"CrashSeverity\": {\n    \"Type\": "@ + jtail8(m)
}

spec fn jtail6(m: ReportSpec) -> Seq<char> {
    quote(m.os_info) + jtail7(m)
}

spec fn jtail5(m: ReportSpec) -> Seq<char> {
    ",\n  \"OsInfo\": "@ + jtail6(m)
}

spec fn jtail4(m: ReportSpec) -> Seq<char> {
    quote(m.proc_cmdline) + jtail5(m)
}

spec fn jtail3(m: ReportSpec) -> Seq<char> {
    ",\n  \"ProcCmdline\": "@ + jtail4(m)
}

spec fn jtail2(m: ReportSpec) -> Seq<char> {
    quote(m.executable_path) + jtail3(m)
}

spec fn jtail1(m: ReportSpec) -> Seq<char> {
    "{\n  \"ExecutablePath\": "@ + jtail2(m)
}

/// The serialized form regrouped from the right: piece by piece.
#[verifier::rlimit(100)]
proof fn lemma_json_right(m: ReportSpec)
    ensures
        json_of(m) == jtail1(m),
{
    let q1: Seq<char> = "{\n  \"ExecutablePath\": "@;
    let q2: Seq<char> = q1 + quote(m.executable_path);
    let q3: Seq<char> = q2 + ",\n  \"ProcCmdline\": "@;
    let q4: Seq<char> = q3 + quote(m.proc_cmdline);
    let q5: Seq<char> = q4 + ",\n  \"OsInfo\": "@;
    let q6: Seq<char> = q5 + quote(m.os_info);
    let q7: Seq<char> = q6 + ",\n  \"CrashSeverity\": {\n    \"Type\": "@;
    let q8: Seq<char> = q7 + quote(m.execution_class.severity);
    let q9: Seq<char> = q8 + ",\n    \"ShortDescription\": "@;
    let q10: Seq<char> = q9 + quote(m.execution_class.short_description);
    let q11: Seq<char> = q10 + ",\n    \"Description\": "@;
    let q12: Seq<char> = q11 + quote(m.execution_class.description);
    let q13: Seq<char> = q12 + ",\n    \"Explanation\": "@;
    let q14: Seq<char> = q13 + quote(m.execution_class.explanation);
    let q15: Seq<char> = q14 + "\n  },\n  \"AsanReport\": "@;
    let q16: Seq<char> = q15 + arr_of(m.asan_report);
    let q17: Seq<char> = q16 + ",\n  \"Stacktrace\": "@;
    let q18: Seq<char> = q17 + arr_of(m.stacktrace);
    let q19: Seq<char> = q18 + ",\n  \"ProcMaps\": "@;
    let q20: Seq<char> = q19 + arr_of(m.proc_maps);
    let q21: Seq<char> = q20 + ",\n  \"CrashLine\": "@;
    let q22: Seq<char> = q21 + quote(m.crashline);
    let q23: Seq<char> = q22 + ",\n  \"Source\": "@;
    let q24: Seq<char> = q23 + arr_of(m.source);
    let q25: Seq<char> = q24 + "\n}"@;
    assert(json_of(m) == q25);
    lemma_assoc(q1, quote(m.executable_path), jtail3(m));
    assert(q1 + jtail2(m) == q2 + jtail3(m));
    lemma_assoc(q2, ",\n  \"ProcCmdline\": "@, jtail4(m));
    assert(q2 + jtail3(m) == q3 + jtail4(m));
    lemma_assoc(q3, quote(m.proc_cmdline), jtail5(m));
    assert(q3 + jtail4(m) == q4 + jtail5(m));
    lemma_assoc(q4, ",\n  \"OsInfo\": "@, jtail6(m));
    assert(q4 + jtail5(m) == q5 + jtail6(m));
    lemma_assoc(q5, quote(m.os_info), jtail7(m));
    assert(q5 + jtail6(m) == q6 + jtail7(m));
    lemma_assoc(q6, ",\n  \"CrashSeverity\": {\n    \"Type\": "@, jtail8(m));
    assert(q6 + jtail7(m) == q7 + jtail8(m));
    lemma_assoc(q7, quote(m.execution_class.severity), jtail9(m));
    assert(q7 + jtail8(m) == q8 + jtail9(m));
    lemma_assoc(q8, ",\n    \"ShortDescription\": "@, jtail10(m));
    assert(q8 + jtail9(m) == q9 + jtail10(m));
    lemma_assoc(q9, quote(m.execution_class.short_description), jtail11(m));
    assert(q9 + jtail10(m) == q10 + jtail11(m));
    lemma_assoc(q10, ",\n    \"Description\": "@, jtail12(m));
    assert(q10 + jtail11(m) == q11 + jtail12(m));
    lemma_assoc(q11, quote(m.execution_class.description), jtail13(m));
    assert(q11 + jtail12(m) == q12 + jtail13(m));
    lemma_assoc(q12, ",\n    \"Explanation\": "@, jtail14(m));
    assert(q12 + jtail13(m) == q13 + jtail14(m));
    lemma_assoc(q13, quote(m.execution_class.explanation), jtail15(m));
    assert(q13 + jtail14(m) == q14 + jtail15(m));
    lemma_assoc(q14, "\n  },\n  \"AsanReport\": "@, jtail16(m));
    assert(q14 + jtail15(m) == q15 + jtail16(m));
    lemma_assoc(q15, arr_of(m.asan_report), jtail17(m));
    assert(q15 + jtail16(m) == q16 + jtail17(m));
    lemma_assoc(q16, ",\n  \"Stacktrace\": "@, jtail18(m));
    assert(q16 + jtail17(m) == q17 + jtail18(m));
    lemma_assoc(q17, arr_of(m.stacktrace), jtail19(m));
    assert(q17 + jtail18(m) == q18 + jtail19(m));
    lemma_assoc(q18, ",\n  \"ProcMaps\": "@, jtail20(m));
    assert(q18 + jtail19(m) == q19 + jtail20(m));
    lemma_assoc(q19, arr_of(m.proc_maps), jtail21(m));
    assert(q19 + jtail20(m) == q20 + jtail21(m));
    lemma_assoc(q20, ",\n  \"CrashLine\": "@, jtail22(m));
    assert(q20 + jtail21(m) == q21 + jtail22(m));
    lemma_assoc(q21, quote(m.crashline), jtail23(m));
    assert(q21 + jtail22(m) == q22 + jtail23(m));
    lemma_assoc(q22, ",\n  \"Source\": "@, jtail24(m));
    assert(q22 + jtail23(m) == q23 + jtail24(m));
    lemma_assoc(q23, arr_of(m.source), jtail25(m));
    assert(q23 + jtail24(m) == q24 + jtail25(m));
    assert(jtail1(m) == q1 + jtail2(m));
    assert(q24 + jtail25(m) == q25);
}

/// Law (round trip): the serialized form determines the report — two
/// reports with the same serialization are field-for-field equal. With
/// `from_json`'s contract, whatever a parse of `to_json(r)` returns is
/// `r` itself.
#[verifier::rlimit(100)]
/// Law (round trip): serializing then deserializing gives back the very
/// report, field for field. Any parse outcome that meets `from_json`'s
/// contract on the serialized form of `r` is `Some` of `r` itself.
pub proof fn lemma_json_round_trip(r: ReportSpec, parsed: Option<ReportSpec>, s: Seq<char>)
    requires
        s == json_of(r),
        (match parsed {
            Some(m) => s == json_of(m),
            None => forall|m: ReportSpec| s != json_of(m),
        }),
    ensures
        parsed == Some(r),
{
    match parsed {
        Some(m) => {
            lemma_json_of_injective(m, r);
        },
        None => {
            assert(s != json_of(r));
        },
    }
}

pub proof fn lemma_json_of_injective(a: ReportSpec, b: ReportSpec)
    requires
        json_of(a) == json_of(b),
    ensures
        a == b,
{
    lemma_json_right(a);
    lemma_json_right(b);
    assert(jtail1(a) == jtail1(b));
    lemma_cancel_prefix("{\n  \"ExecutablePath\": "@, jtail2(a), jtail2(b));
    lemma_quote_prefix(a.executable_path, b.executable_path, jtail3(a), jtail3(b));
    lemma_cancel_prefix(",\n  \"ProcCmdline\": "@, jtail4(a), jtail4(b));
    lemma_quote_prefix(a.proc_cmdline, b.proc_cmdline, jtail5(a), jtail5(b));
    lemma_cancel_prefix(",\n  \"OsInfo\": "@, jtail6(a), jtail6(b));
    lemma_quote_prefix(a.os_info, b.os_info, jtail7(a), jtail7(b));
    lemma_cancel_prefix(",\n  \"CrashSeverity\": {\n    \"Type\": "@, jtail8(a), jtail8(b));
    lemma_quote_prefix(a.execution_class.severity, b.execution_class.severity, jtail9(a), jtail9(b));
    lemma_cancel_prefix(",\n    \"ShortDescription\": "@, jtail10(a), jtail10(b));
    lemma_quote_prefix(a.execution_class.short_description, b.execution_class.short_description, jtail11(a), jtail11(b));
    lemma_cancel_prefix(",\n    \"Description\": "@, jtail12(a), jtail12(b));
    lemma_quote_prefix(a.execution_class.description, b.execution_class.description, jtail13(a), jtail13(b));
    lemma_cancel_prefix(",\n    \"Explanation\": "@, jtail14(a), jtail14(b));
    lemma_quote_prefix(a.execution_class.explanation, b.execution_class.explanation, jtail15(a), jtail15(b));
    lemma_cancel_prefix("\n  },\n  \"AsanReport\": "@, jtail16(a), jtail16(b));
    lemma_arr_prefix(a.asan_report, b.asan_report, jtail17(a), jtail17(b));
    lemma_cancel_prefix(",\n  \"Stacktrace\": "@, jtail18(a), jtail18(b));
    lemma_arr_prefix(a.stacktrace, b.stacktrace, jtail19(a), jtail19(b));
    lemma_cancel_prefix(",\n  \"ProcMaps\": "@, jtail20(a), jtail20(b));
    lemma_arr_prefix(a.proc_maps, b.proc_maps, jtail21(a), jtail21(b));
    lemma_cancel_prefix(",\n  \"CrashLine\": "@, jtail22(a), jtail22(b));
    lemma_quote_prefix(a.crashline, b.crashline, jtail23(a), jtail23(b));
    lemma_cancel_prefix(",\n  \"Source\": "@, jtail24(a), jtail24(b));
    lemma_arr_prefix(a.source, b.source, jtail25(a), jtail25(b));
    assert(a.execution_class == b.execution_class);
    assert(a == b);
}


/// Append the escaped body of `s` to `out`.
fn escape_into(out: &mut String, s: &str)
    ensures
        final(out)@ == old(out)@ + escape(s@),
{
    let len = s.unicode_len();
    let mut pos: usize = 0;
    proof {
        assert(out@ =~= old(out)@ + escape(s@.subrange(0, 0)));
    }
    while pos < len
        invariant
            len == s@.len(),
            pos <= len,
            out@ == old(out)@ + escape(s@.subrange(0, pos as int)),
        decreases len - pos,
    {
        let ghost done = s@.subrange(0, pos as int);
        let c = s.get_char(pos);
        if c == '\\' {
            out.append("\\\\");
            proof {
                reveal_strlit("\\\\");
                assert("\\\\"@ =~= escape_char(c));
            }
        } else if c == '"' {
            out.append("\\\"");
            proof {
                reveal_strlit("\\\"");
                assert("\\\""@ =~= escape_char(c));
            }
        } else if c == '\n' {
            out.append("\\n");
            proof {
                reveal_strlit("\\n");
                assert("\\n"@ =~= escape_char(c));
            }
        } else if c == '\r' {
            out.append("\\r");
            proof {
                reveal_strlit("\\r");
                assert("\\r"@ =~= escape_char(c));
            }
        } else if c == '\t' {
            out.append("\\t");
            proof {
                reveal_strlit("\\t");
                assert("\\t"@ =~= escape_char(c));
            }
        } else {
            let one = s.substring_char(pos, pos + 1);
            out.append(one);
            proof {
                assert(one@ =~= seq![c]);
                assert(seq![c] =~= escape_char(c));
            }
        }
        proof {
            lemma_escape_append(done, seq![c]);
            assert(seq![c].drop_first() =~= Seq::<char>::empty());
            assert(escape(seq![c].drop_first()) =~= Seq::<char>::empty());
            assert(escape(seq![c]) =~= escape_char(c));
            assert(s@.subrange(0, pos + 1) =~= done + seq![c]);
            assert(out@ =~= old(out)@ + escape(s@.subrange(0, pos + 1)));
        }
        pos = pos + 1;
    }
    proof {
        assert(s@.subrange(0, len as int) =~= s@);
    }
}

/// Append `s` as a JSON string to `out`.
fn quote_into(out: &mut String, s: &str)
    ensures
        final(out)@ == old(out)@ + quote(s@),
{
    out.append("\"");
    escape_into(out, s);
    out.append("\"");
    proof {
        reveal_strlit("\"");
        assert("\""@ =~= seq!['"']);
        assert(out@ =~= old(out)@ + quote(s@));
    }
}

/// Append `lines` as a JSON array to `out`.
fn arr_into(out: &mut String, lines: &Vec<String>)
    ensures
        final(out)@ == old(out)@ + arr_of(lines.deep_view()),
{
    let ghost dv = lines.deep_view();
    let n = lines.len();
    if n == 0 {
        out.append("[]");
        proof {
            assert(dv =~= Seq::<Seq<char>>::empty());
        }
        return ;
    }
    out.append("[\n");
    let mut i: usize = 0;
    while i < n
        invariant
            dv == lines.deep_view(),
            n == dv.len(),
            n >= 1,
            i <= n,
            out@ == old(out)@ + "[\n"@ + items_prefix(dv, i as int),
        decreases n - i,
    {
        let ghost before = out@;
        out.append("    ");
        quote_into(out, lines[i].as_str());
        if i + 1 < n {
            out.append(",\n");
            proof {
                assert(out@ =~= before + ("    "@ + quote(dv[i as int]) + ",\n"@));
                lemma_items_prefix_step(dv, i as int);
                assert(out@ =~= old(out)@ + "[\n"@ + items_prefix(dv, i + 1));
            }
        } else {
            out.append("\n");
            proof {
                assert(out@ =~= before + ("    "@ + quote(dv[i as int]) + "\n"@));
                lemma_items_prefix_step(dv, i as int);
                assert(out@ =~= old(out)@ + "[\n"@ + items_prefix(dv, i + 1));
            }
        }
        i = i + 1;
    }
    out.append("  ]");
    proof {
        lemma_items_prefix_full(dv);
        assert(out@ =~= old(out)@ + arr_of(dv));
    }
}

/// The encoding of the first `i` items of `lines`, commas included after
/// every item that another follows.
pub open spec fn items_prefix(lines: Seq<Seq<char>>, i: int) -> Seq<char>
    decreases i,
{
    if i <= 0 {
        Seq::empty()
    } else if i == lines.len() {
        items_prefix(lines, i - 1) + "    "@ + quote(lines[i - 1]) + "\n"@
    } else {
        items_prefix(lines, i - 1) + "    "@ + quote(lines[i - 1]) + ",\n"@
    }
}

/// One more item extends the prefix by that item's line.
proof fn lemma_items_prefix_step(lines: Seq<Seq<char>>, i: int)
    requires
        0 <= i < lines.len(),
    ensures
        i + 1 < lines.len() ==> items_prefix(lines, i + 1) == items_prefix(lines, i) + (
        "    "@ + quote(lines[i]) + ",\n"@),
        i + 1 == lines.len() ==> items_prefix(lines, i + 1) == items_prefix(lines, i) + (
        "    "@ + quote(lines[i]) + "\n"@),
{
    if i + 1 < lines.len() {
        assert(items_prefix(lines, i + 1) =~= items_prefix(lines, i) + ("    "@ + quote(lines[i])
            + ",\n"@));
    } else {
        assert(items_prefix(lines, i + 1) =~= items_prefix(lines, i) + ("    "@ + quote(lines[i])
            + "\n"@));
    }
}

/// The complete prefix is exactly the array items.
proof fn lemma_items_prefix_full(lines: Seq<Seq<char>>)
    ensures
        lines.len() > 0 ==> items_prefix(lines, lines.len() as int) == arr_items(lines),
    decreases lines.len(),
{
    if lines.len() == 1 {
        assert(items_prefix(lines, 0) =~= Seq::<char>::empty());
        assert(items_prefix(lines, 1) =~= arr_items(lines));
    } else if lines.len() > 1 {
        lemma_items_prefix_full(lines.drop_first());
        lemma_items_prefix_shift(lines, lines.len() as int);
        assert(items_prefix(lines, lines.len() as int) =~= arr_items(lines));
    }
}

/// A prefix of `lines` beyond the first item is the first item's line
/// followed by a prefix of the rest.
proof fn lemma_items_prefix_shift(lines: Seq<Seq<char>>, i: int)
    requires
        lines.len() >= 2,
        1 <= i <= lines.len(),
    ensures
        items_prefix(lines, i) == "    "@ + quote(lines[0]) + ",\n"@ + items_prefix(
            lines.drop_first(),
            i - 1,
        ),
    decreases i,
{
    if i == 1 {
        assert(items_prefix(lines, 0) =~= Seq::<char>::empty());
        assert(items_prefix(lines.drop_first(), 0) =~= Seq::<char>::empty());
        assert(items_prefix(lines, 1) =~= "    "@ + quote(lines[0]) + ",\n"@ + items_prefix(
            lines.drop_first(),
            0,
        ));
    } else {
        lemma_items_prefix_shift(lines, i - 1);
        assert(lines.drop_first()[i - 2] == lines[i - 1]);
        if i == lines.len() {
            assert(items_prefix(lines, i) =~= "    "@ + quote(lines[0]) + ",\n"@ + items_prefix(
                lines.drop_first(),
                i - 1,
            ));
        } else {
            assert(items_prefix(lines, i) =~= "    "@ + quote(lines[0]) + ",\n"@ + items_prefix(
                lines.drop_first(),
                i - 1,
            ));
        }
    }
}

/// Consume `lit` at `pos`, or fail; failure means `lit` is not there.
fn expect_lit(s: &str, len: usize, pos: usize, lit: &str) -> (r: Option<usize>)
    requires
        len == s@.len(),
        pos <= len,
    ensures
        r matches Some(j) ==> pos <= j <= len && s@.subrange(pos as int, j as int) == lit@,
        r is None ==> !matches_at(s@, lit@, pos as int),
{
    if match_at(s, len, pos, lit) {
        Some(pos + lit.unicode_len())
    } else {
        None
    }
}

/// Inside a text that continues as some whole JSON string, whatever
/// follows a consumed partial body is a well-formed continuation.
proof fn lemma_string_mismatch(
    s: Seq<char>,
    pos: int,
    p: int,
    vb: Seq<char>,
    w: Seq<char>,
    rest: Seq<char>,
)
    requires
        0 <= pos < p <= s.len(),
        s[pos] == '"',
        escape(vb) == s.subrange(pos + 1, p),
        s.subrange(pos, s.len() as int) == quote(w) + rest,
    ensures
        ({
            let t = s.subrange(p, s.len() as int);
            t.len() >= 1 && (t[0] == '\\' ==> t.len() >= 2 && (t[1] == '\\' || t[1] == '"'
                || t[1] == 'n' || t[1] == 'r' || t[1] == 't')) && t[0] != '\n' && t[0] != '\r'
                && t[0] != '\t'
        }),
{
    let t = s.subrange(p, s.len() as int);
    assert(s.subrange(pos, s.len() as int) =~= seq!['"'] + (s.subrange(pos + 1, p) + t));
    assert(quote(w) + rest =~= seq!['"'] + (escape(w) + (seq!['"'] + rest)));
    lemma_cancel_prefix(seq!['"'], s.subrange(pos + 1, p) + t, escape(w) + (seq!['"'] + rest));
    lemma_escape_continuation(vb, w, rest, t);
}

/// Consume one canonical JSON string at `pos`: what is returned encodes,
/// through `quote`, to exactly the consumed characters; and where nothing
/// is returned, no JSON string opens the remaining text.
fn parse_string(s: &str, len: usize, pos: usize) -> (r: Option<(String, usize)>)
    requires
        len == s@.len(),
        pos <= len,
    ensures
        r matches Some((v, j)) ==> pos < j <= len && s@.subrange(pos as int, j as int) == quote(
            v@,
        ),
        r is None ==> forall|w: Seq<char>, rest: Seq<char>|
            s@.subrange(pos as int, len as int) != quote(w) + rest,
{
    if pos >= len {
        proof {
            assert forall|w: Seq<char>, rest: Seq<char>|
                s@.subrange(pos as int, len as int) != quote(w) + rest by {
                assert(s@.subrange(pos as int, len as int).len() == 0);
                assert(quote(w).len() == 2 + escape(w).len());
                assert((quote(w) + rest).len() >= 2);
            }
        }
        return None;
    }
    if s.get_char(pos) != '"' {
        proof {
            assert forall|w: Seq<char>, rest: Seq<char>|
                s@.subrange(pos as int, len as int) != quote(w) + rest by {
                if s@.subrange(pos as int, len as int) == quote(w) + rest {
                    assert((quote(w) + rest)[0] == '"');
                    assert(s@.subrange(pos as int, len as int)[0] == s@[pos as int]);
                    assert(false);
                }
            }
        }
        return None;
    }
    let mut v = String::new();
    let mut p: usize = pos + 1;
    proof {
        assert(escape(v@) =~= s@.subrange(pos + 1, pos + 1));
    }
    loop
        invariant
            len == s@.len(),
            pos + 1 <= p <= len,
            s@[pos as int] == '"',
            escape(v@) == s@.subrange(pos + 1, p as int),
        decreases len - p,
    {
        if p >= len {
            proof {
                assert forall|w: Seq<char>, rest: Seq<char>|
                    s@.subrange(pos as int, len as int) != quote(w) + rest by {
                    if s@.subrange(pos as int, len as int) == quote(w) + rest {
                        lemma_string_mismatch(s@, pos as int, p as int, v@, w, rest);
                        assert(s@.subrange(p as int, len as int).len() == 0);
                        assert(false);
                    }
                }
            }
            return None;
        }
        let ghost body = v@;
        let c = s.get_char(p);
        if c == '"' {
            proof {
                assert(s@[p as int] == '"');
                assert(quote(v@) =~= s@.subrange(pos as int, p + 1));
            }
            return Some((v, p + 1));
        }
        if c == '\\' {
            if p + 1 >= len {
                proof {
                    assert forall|w: Seq<char>, rest: Seq<char>|
                        s@.subrange(pos as int, len as int) != quote(w) + rest by {
                        if s@.subrange(pos as int, len as int) == quote(w) + rest {
                            lemma_string_mismatch(s@, pos as int, p as int, v@, w, rest);
                            assert(s@.subrange(p as int, len as int)[0] == s@[p as int]);
                            assert(s@.subrange(p as int, len as int).len() >= 2);
                            assert(false);
                        }
                    }
                }
                return None;
            }
            let d = s.get_char(p + 1);
            if d == '\\' {
                v.append("\\");
                proof {
                    reveal_strlit("\\");
                }
            } else if d == '"' {
                v.append("\"");
                proof {
                    reveal_strlit("\"");
                }
            } else if d == 'n' {
                v.append("\n");
                proof {
                    reveal_strlit("\n");
                }
            } else if d == 'r' {
                v.append("\r");
                proof {
                    reveal_strlit("\r");
                }
            } else if d == 't' {
                v.append("\t");
                proof {
                    reveal_strlit("\t");
                }
            } else {
                proof {
                    assert forall|w: Seq<char>, rest: Seq<char>|
                        s@.subrange(pos as int, len as int) != quote(w) + rest by {
                        if s@.subrange(pos as int, len as int) == quote(w) + rest {
                            lemma_string_mismatch(s@, pos as int, p as int, v@, w, rest);
                            assert(s@.subrange(p as int, len as int)[0] == s@[p as int]);
                            assert(s@.subrange(p as int, len as int)[1] == s@[p + 1]);
                            assert(false);
                        }
                    }
                }
                return None;
            }
            proof {
                let e = v@[v@.len() - 1];
                assert(v@ =~= body + seq![e]);
                lemma_escape_append(body, seq![e]);
                assert(seq![e].drop_first() =~= Seq::<char>::empty());
                assert(escape(seq![e].drop_first()) =~= Seq::<char>::empty());
                assert(escape(seq![e]) =~= escape_char(e));
                assert(escape_char(e) =~= seq![c, d]);
                assert(escape(v@) =~= s@.subrange(pos + 1, p + 2));
            }
            p = p + 2;
        } else {
            if c == '\n' || c == '\r' || c == '\t' {
                proof {
                    assert forall|w: Seq<char>, rest: Seq<char>|
                        s@.subrange(pos as int, len as int) != quote(w) + rest by {
                        if s@.subrange(pos as int, len as int) == quote(w) + rest {
                            lemma_string_mismatch(s@, pos as int, p as int, v@, w, rest);
                            assert(s@.subrange(p as int, len as int)[0] == s@[p as int]);
                            assert(false);
                        }
                    }
                }
                return None;
            }
            let one = s.substring_char(p, p + 1);
            v.append(one);
            proof {
                assert(one@ =~= seq![c]);
                assert(v@ =~= body + seq![c]);
                lemma_escape_append(body, seq![c]);
                assert(seq![c].drop_first() =~= Seq::<char>::empty());
                assert(escape(seq![c].drop_first()) =~= Seq::<char>::empty());
                assert(escape(seq![c]) =~= escape_char(c));
                assert(escape_char(c) =~= seq![c]);
                assert(escape(v@) =~= s@.subrange(pos + 1, p + 1));
            }
            p = p + 1;
        }
    }
}

/// The encoding of the first `i` items of `lines`, each followed by a
/// comma and line break.
pub open spec fn items_comma(lines: Seq<Seq<char>>, i: int) -> Seq<char>
    decreases i,
{
    if i <= 0 {
        Seq::empty()
    } else {
        items_comma(lines, i - 1) + "    "@ + quote(lines[i - 1]) + ",\n"@
    }
}

/// The comma-form prefix depends only on the items below the bound.
proof fn lemma_items_comma_congr(a: Seq<Seq<char>>, b: Seq<Seq<char>>, i: int)
    requires
        0 <= i,
        forall|k: int| 0 <= k < i ==> a[k] == b[k],
    ensures
        items_comma(a, i) == items_comma(b, i),
    decreases i,
{
    if i > 0 {
        lemma_items_comma_congr(a, b, i - 1);
        assert(items_comma(a, i) =~= items_comma(b, i));
    }
}

/// The comma-form prefix peels off its first item.
proof fn lemma_items_comma_shift(lines: Seq<Seq<char>>, i: int)
    requires
        1 <= i <= lines.len(),
    ensures
        items_comma(lines, i) == "    "@ + quote(lines[0]) + ",\n"@ + items_comma(
            lines.drop_first(),
            i - 1,
        ),
    decreases i,
{
    if i == 1 {
        assert(items_comma(lines, 0) =~= Seq::<char>::empty());
        assert(items_comma(lines.drop_first(), 0) =~= Seq::<char>::empty());
        assert(items_comma(lines, 1) =~= "    "@ + quote(lines[0]) + ",\n"@ + items_comma(
            lines.drop_first(),
            0,
        ));
    } else {
        lemma_items_comma_shift(lines, i - 1);
        assert(lines.drop_first()[i - 2] == lines[i - 1]);
        assert(items_comma(lines, i) =~= "    "@ + quote(lines[0]) + ",\n"@ + items_comma(
            lines.drop_first(),
            i - 1,
        ));
    }
}

/// The item lines are the comma-form prefix of all but the last item,
/// then the last item closed by a bare line break.
proof fn lemma_arr_items_split(lines: Seq<Seq<char>>)
    requires
        lines.len() >= 1,
    ensures
        arr_items(lines) == items_comma(lines, lines.len() - 1) + ("    "@ + quote(lines.last())
            + "\n"@),
    decreases lines.len(),
{
    if lines.len() == 1 {
        assert(items_comma(lines, 0) =~= Seq::<char>::empty());
        assert(arr_items(lines) =~= items_comma(lines, 0) + ("    "@ + quote(lines.last())
            + "\n"@));
    } else {
        lemma_arr_items_split(lines.drop_first());
        lemma_items_comma_shift(lines, lines.len() - 1);
        assert(lines.drop_first().last() == lines.last());
        assert(arr_items(lines) =~= items_comma(lines, lines.len() - 1) + ("    "@ + quote(
            lines.last(),
        ) + "\n"@));
    }
}

/// Inside an item list that continues as the items of some array `u`,
/// whatever follows the items consumed so far is the next item's line:
/// its indent, its quoted text, and a comma or the closing bracket.
proof fn lemma_items_continuation(
    done: Seq<Seq<char>>,
    u: Seq<Seq<char>>,
    x: Seq<char>,
    t: Seq<char>,
)
    requires
        u.len() >= 1,
        arr_items(u) + ("  ]"@ + x) == items_comma(done, done.len() as int) + t,
    ensures
        done.len() < u.len(),
        ({
            let k = done.len() as int;
            let t2 = if k + 1 == u.len() {
                "\n"@ + ("  ]"@ + x)
            } else {
                ",\n"@ + (arr_items(u.subrange(k + 1, u.len() as int)) + ("  ]"@ + x))
            };
            t == "    "@ + (quote(u[k]) + t2)
        }),
    decreases done.len(),
{
    if done.len() == 0 {
        assert(items_comma(done, 0) =~= Seq::<char>::empty());
        assert(t =~= arr_items(u) + ("  ]"@ + x));
        if u.len() == 1 {
            assert(t =~= "    "@ + (quote(u[0]) + ("\n"@ + ("  ]"@ + x))));
        } else {
            assert(u.drop_first() =~= u.subrange(1, u.len() as int));
            assert(t =~= "    "@ + (quote(u[0]) + (",\n"@ + (arr_items(
                u.subrange(1, u.len() as int),
            ) + ("  ]"@ + x)))));
        }
    } else {
        lemma_items_comma_shift(done, done.len() as int);
        let ta = if u.len() == 1 {
            "\n"@ + ("  ]"@ + x)
        } else {
            ",\n"@ + (arr_items(u.drop_first()) + ("  ]"@ + x))
        };
        let tb = ",\n"@ + (items_comma(done.drop_first(), done.len() - 1) + t);
        assert(arr_items(u) + ("  ]"@ + x) =~= "    "@ + (quote(u[0]) + ta));
        assert(items_comma(done, done.len() as int) + t =~= "    "@ + (quote(done[0]) + tb));
        lemma_cancel_prefix("    "@, quote(u[0]) + ta, quote(done[0]) + tb);
        lemma_quote_prefix(u[0], done[0], ta, tb);
        if u.len() == 1 {
            reveal_strlit("\n");
            reveal_strlit(",\n");
            assert(ta[0] == '\n');
            assert(tb[0] == ',');
            assert(false);
        }
        lemma_cancel_prefix(
            ",\n"@,
            arr_items(u.drop_first()) + ("  ]"@ + x),
            items_comma(done.drop_first(), done.len() - 1) + t,
        );
        assert(done.drop_first().len() as int == done.len() - 1);
        lemma_items_continuation(done.drop_first(), u.drop_first(), x, t);
        let k = done.len() as int;
        assert(u.drop_first()[k - 1] == u[k]);
        if k + 1 < u.len() {
            assert(u.drop_first().subrange(k, u.drop_first().len() as int) =~= u.subrange(
                k + 1,
                u.len() as int,
            ));
        }
    }
}

/// Inside a text that continues as some whole JSON array, whatever
/// follows the items consumed so far is the next item's line.
proof fn lemma_array_mismatch(
    s: Seq<char>,
    pos: int,
    p: int,
    dv: Seq<Seq<char>>,
    u: Seq<Seq<char>>,
    rest: Seq<char>,
)
    requires
        0 <= pos,
        pos + 2 <= p <= s.len(),
        s.subrange(pos, pos + 2) == "[\n"@,
        s.subrange(pos + 2, p) == items_comma(dv, dv.len() as int),
        s.subrange(pos, s.len() as int) == arr_of(u) + rest,
    ensures
        dv.len() < u.len(),
        ({
            let k = dv.len() as int;
            let t2 = if k + 1 == u.len() {
                "\n"@ + ("  ]"@ + rest)
            } else {
                ",\n"@ + (arr_items(u.subrange(k + 1, u.len() as int)) + ("  ]"@ + rest))
            };
            s.subrange(p, s.len() as int) == "    "@ + (quote(u[k]) + t2)
        }),
{
    reveal_strlit("[]");
    reveal_strlit("[\n");
    let t = s.subrange(p, s.len() as int);
    let sub = s.subrange(pos, s.len() as int);
    if u.len() == 0 {
        assert(sub[1] == (arr_of(u) + rest)[1]);
        assert(sub[1] == s[pos + 1]);
        assert(s[pos + 1] == s.subrange(pos, pos + 2)[1]);
        assert((arr_of(u) + rest)[1] == ']');
        assert(false);
    }
    assert(arr_of(u) + rest =~= "[\n"@ + (arr_items(u) + ("  ]"@ + rest)));
    assert(sub =~= "[\n"@ + (s.subrange(pos + 2, p) + t));
    lemma_cancel_prefix(
        "[\n"@,
        arr_items(u) + ("  ]"@ + rest),
        s.subrange(pos + 2, p) + t,
    );
    assert(arr_items(u) + ("  ]"@ + rest) == items_comma(dv, dv.len() as int) + t);
    lemma_items_continuation(dv, u, rest, t);
}

/// Consume one canonical JSON array of strings at `pos`: what is returned
/// encodes, through `arr_of`, to exactly the consumed characters; and
/// where nothing is returned, no JSON array opens the remaining text.
#[verifier::rlimit(100)]
fn parse_array(s: &str, len: usize, pos: usize) -> (r: Option<(Vec<String>, usize)>)
    requires
        len == s@.len(),
        pos <= len,
    ensures
        r matches Some((v, j)) ==> pos <= j <= len && s@.subrange(pos as int, j as int) == arr_of(
            v.deep_view(),
        ),
        r is None ==> forall|u: Seq<Seq<char>>, rest: Seq<char>|
            s@.subrange(pos as int, len as int) != arr_of(u) + rest,
{
    match expect_lit(s, len, pos, "[]") {
        Some(j) => {
            let v: Vec<String> = Vec::new();
            proof {
                assert(v.deep_view() =~= Seq::<Seq<char>>::empty());
            }
            return Some((v, j));
        },
        None => {},
    }
    let mut p: usize = match expect_lit(s, len, pos, "[\n") {
        Some(j) => j,
        None => {
            proof {
                assert forall|u: Seq<Seq<char>>, rest: Seq<char>|
                    s@.subrange(pos as int, len as int) != arr_of(u) + rest by {
                    if s@.subrange(pos as int, len as int) == arr_of(u) + rest {
                        reveal_strlit("[]");
                        reveal_strlit("[\n");
                        let sub = s@.subrange(pos as int, len as int);
                        assert((arr_of(u) + rest).len() >= 2);
                        assert(pos + 2 <= len);
                        assert(sub[0] == s@[pos as int]);
                        assert(sub[1] == s@[pos + 1]);
                        if u.len() == 0 {
                            assert(sub[0] == '[');
                            assert(sub[1] == ']');
                            assert(s@.subrange(pos as int, pos + 2) =~= "[]"@);
                            assert(matches_at(s@, "[]"@, pos as int));
                        } else {
                            assert(arr_of(u) + rest =~= "[\n"@ + (arr_items(u) + ("  ]"@
                                + rest)));
                            assert(sub[0] == '[');
                            assert(sub[1] == '\n');
                            assert(s@.subrange(pos as int, pos + 2) =~= "[\n"@);
                            assert(matches_at(s@, "[\n"@, pos as int));
                        }
                        assert(false);
                    }
                }
            }
            return None;
        },
    };
    let mut items: Vec<String> = Vec::new();
    proof {
        reveal_strlit("[\n");
        assert(s@.subrange(pos as int, p as int).len() == "[\n"@.len());
        assert(p == pos + 2);
        assert(items.deep_view() =~= Seq::<Seq<char>>::empty());
        assert(items_comma(items.deep_view(), 0) =~= Seq::<char>::empty());
        assert(s@.subrange(pos + 2, p as int) =~= items_comma(items.deep_view(), 0));
    }
    loop
        invariant
            len == s@.len(),
            pos + 2 <= p <= len,
            s@.subrange(pos as int, pos + 2) == "[\n"@,
            s@.subrange(pos + 2, p as int) == items_comma(
                items.deep_view(),
                items.deep_view().len() as int,
            ),
        decreases len - p,
    {
        let ghost dv0 = items.deep_view();
        let p0 = match expect_lit(s, len, p, "    ") {
            Some(j) => j,
            None => {
                proof {
                    assert forall|u: Seq<Seq<char>>, rest: Seq<char>|
                        s@.subrange(pos as int, len as int) != arr_of(u) + rest by {
                        if s@.subrange(pos as int, len as int) == arr_of(u) + rest {
                            lemma_array_mismatch(s@, pos as int, p as int, dv0, u, rest);
                            reveal_strlit("    ");
                            let k = dv0.len() as int;
                            let t = s@.subrange(p as int, len as int);
                            assert(quote(u[k]).len() == 2 + escape(u[k]).len());
                            assert(t.len() >= 6);
                            assert(p + 4 <= len);
                            assert(t[0] == ' ' && t[1] == ' ' && t[2] == ' ' && t[3] == ' ');
                            assert(t[0] == s@[p as int] && t[1] == s@[p + 1] && t[2] == s@[p + 2]
                                && t[3] == s@[p + 3]);
                            assert(s@.subrange(p as int, p + 4) =~= "    "@);
                            assert(matches_at(s@, "    "@, p as int));
                            assert(false);
                        }
                    }
                }
                return None;
            },
        };
        let (item, p1) = match parse_string(s, len, p0) {
            Some(x) => x,
            None => {
                proof {
                    assert forall|u: Seq<Seq<char>>, rest: Seq<char>|
                        s@.subrange(pos as int, len as int) != arr_of(u) + rest by {
                        if s@.subrange(pos as int, len as int) == arr_of(u) + rest {
                            lemma_array_mismatch(s@, pos as int, p as int, dv0, u, rest);
                            reveal_strlit("    ");
                            let k = dv0.len() as int;
                            let t2 = if k + 1 == u.len() {
                                "\n"@ + ("  ]"@ + rest)
                            } else {
                                ",\n"@ + (arr_items(u.subrange(k + 1, u.len() as int)) + (
                                "  ]"@ + rest))
                            };
                            assert(s@.subrange(p as int, p0 as int).len() == 4);
                            assert(p0 == p + 4);
                            assert(s@.subrange(p as int, len as int) =~= s@.subrange(
                                p as int,
                                p0 as int,
                            ) + s@.subrange(p0 as int, len as int));
                            lemma_cancel_prefix(
                                "    "@,
                                quote(u[k]) + t2,
                                s@.subrange(p0 as int, len as int),
                            );
                            assert(s@.subrange(p0 as int, len as int) != quote(u[k]) + t2);
                            assert(false);
                        }
                    }
                }
                return None;
            },
        };
        let ghost item_view = item@;
        items.push(item);
        let ghost dv1 = items.deep_view();
        proof {
            assert(dv1 =~= dv0.push(item_view));
            lemma_items_comma_congr(dv1, dv0, dv0.len() as int);
        }
        match expect_lit(s, len, p1, ",\n") {
            Some(p2) => {
                proof {
                    assert(items_comma(dv1, dv1.len() as int) =~= items_comma(
                        dv0,
                        dv0.len() as int,
                    ) + "    "@ + quote(item_view) + ",\n"@);
                    assert(s@.subrange(pos + 2, p2 as int) =~= items_comma(
                        dv1,
                        dv1.len() as int,
                    ));
                }
                p = p2;
            },
            None => {
                let p2 = match expect_lit(s, len, p1, "\n  ]") {
                    Some(j) => j,
                    None => {
                        proof {
                            assert forall|u: Seq<Seq<char>>, rest: Seq<char>|
                                s@.subrange(pos as int, len as int) != arr_of(u) + rest by {
                                if s@.subrange(pos as int, len as int) == arr_of(u) + rest {
                                    lemma_array_mismatch(s@, pos as int, p as int, dv0, u, rest);
                                    reveal_strlit("    ");
                                    reveal_strlit(",\n");
                                    reveal_strlit("\n");
                                    reveal_strlit("  ]");
                                    reveal_strlit("\n  ]");
                                    let k = dv0.len() as int;
                                    let t2 = if k + 1 == u.len() {
                                        "\n"@ + ("  ]"@ + rest)
                                    } else {
                                        ",\n"@ + (arr_items(u.subrange(k + 1, u.len() as int))
                                            + ("  ]"@ + rest))
                                    };
                                    assert(s@.subrange(p as int, p0 as int).len() == 4);
                                    assert(p0 == p + 4);
                                    assert(s@.subrange(p as int, len as int) =~= s@.subrange(
                                        p as int,
                                        p0 as int,
                                    ) + s@.subrange(p0 as int, len as int));
                                    lemma_cancel_prefix(
                                        "    "@,
                                        quote(u[k]) + t2,
                                        s@.subrange(p0 as int, len as int),
                                    );
                                    assert(s@.subrange(p0 as int, len as int) =~= quote(
                                        item_view,
                                    ) + s@.subrange(p1 as int, len as int));
                                    lemma_quote_prefix(
                                        u[k],
                                        item_view,
                                        t2,
                                        s@.subrange(p1 as int, len as int),
                                    );
                                    if k + 1 == u.len() {
                                        assert(t2.len() >= 4);
                                        assert(p1 + 4 <= len);
                                        assert(t2[0] == '\n' && t2[1] == ' ' && t2[2] == ' '
                                            && t2[3] == ']');
                                        assert(t2[0] == s@[p1 as int] && t2[1] == s@[p1 + 1]
                                            && t2[2] == s@[p1 + 2] && t2[3] == s@[p1 + 3]);
                                        assert(s@.subrange(p1 as int, p1 + 4) =~= "\n  ]"@);
                                        assert(matches_at(s@, "\n  ]"@, p1 as int));
                                    } else {
                                        assert(t2.len() >= 2);
                                        assert(p1 + 2 <= len);
                                        assert(t2[0] == ',' && t2[1] == '\n');
                                        assert(t2[0] == s@[p1 as int] && t2[1] == s@[p1 + 1]);
                                        assert(s@.subrange(p1 as int, p1 + 2) =~= ",\n"@);
                                        assert(matches_at(s@, ",\n"@, p1 as int));
                                    }
                                    assert(false);
                                }
                            }
                        }
                        return None;
                    },
                };
                proof {
                    lemma_arr_items_split(dv1);
                    reveal_strlit("\n  ]");
                    reveal_strlit("\n");
                    reveal_strlit("  ]");
                    reveal_strlit("    ");
                    reveal_strlit("[\n");
                    let tail4 = s@.subrange(p1 as int, p2 as int);
                    assert(tail4 == "\n  ]"@);
                    assert(tail4.len() == "\n  ]"@.len());
                    assert(p2 == p1 + 4);
                    assert(s@[p1 as int] == tail4[0]);
                    assert(s@[p1 + 1] == tail4[1]);
                    assert(s@[p1 + 2] == tail4[2]);
                    assert(s@[p1 + 3] == tail4[3]);
                    assert(s@.subrange(p1 as int, p1 + 1) =~= "\n"@);
                    assert(s@.subrange(p1 + 1, p2 as int) =~= "  ]"@);
                    assert(arr_items(dv1) =~= items_comma(dv0, dv0.len() as int) + ("    "@
                        + quote(item_view) + "\n"@));
                    assert(s@.subrange(pos + 2, p1 + 1) =~= s@.subrange(pos + 2, p as int)
                        + s@.subrange(p as int, p0 as int) + s@.subrange(p0 as int, p1 as int)
                        + s@.subrange(p1 as int, p1 + 1));
                    assert(s@.subrange(pos + 2, p1 + 1) =~= arr_items(dv1));
                    assert(s@.subrange(pos as int, p2 as int) =~= s@.subrange(pos as int, pos + 2)
                        + s@.subrange(pos + 2, p1 + 1) + s@.subrange(p1 + 1, p2 as int));
                    assert(s@.subrange(pos as int, p2 as int) =~= "[\n"@ + arr_items(dv1)
                        + "  ]"@);
                    assert(s@.subrange(pos as int, p2 as int) =~= arr_of(dv1));
                }
                return Some((items, p2));
            },
        }
    }
}

/// The consumed pieces assemble to the serialized form of the report
/// they parse to.
#[verifier::rlimit(100)]
proof fn lemma_json_assemble(
    s: Seq<char>,
    q1: int,
    q2: int,
    v2: Seq<char>,
    q3: int,
    q4: int,
    v4: Seq<char>,
    q5: int,
    q6: int,
    v6: Seq<char>,
    q7: int,
    q8: int,
    v8: Seq<char>,
    q9: int,
    q10: int,
    v10: Seq<char>,
    q11: int,
    q12: int,
    v12: Seq<char>,
    q13: int,
    q14: int,
    v14: Seq<char>,
    q15: int,
    q16: int,
    a16: Seq<Seq<char>>,
    q17: int,
    q18: int,
    a18: Seq<Seq<char>>,
    q19: int,
    q20: int,
    a20: Seq<Seq<char>>,
    q21: int,
    q22: int,
    v22: Seq<char>,
    q23: int,
    q24: int,
    a24: Seq<Seq<char>>,
    q25: int,
)
    requires
        0 <= q1 <= s.len(),
        s.subrange(0, q1) == "{\n  \"ExecutablePath\": "@,
        q1 <= q2 <= s.len(),
        s.subrange(q1, q2) == quote(v2),
        q2 <= q3 <= s.len(),
        s.subrange(q2, q3) == ",\n  \"ProcCmdline\": "@,
        q3 <= q4 <= s.len(),
        s.subrange(q3, q4) == quote(v4),
        q4 <= q5 <= s.len(),
        s.subrange(q4, q5) == ",\n  \"OsInfo\": "@,
        q5 <= q6 <= s.len(),
        s.subrange(q5, q6) == quote(v6),
        q6 <= q7 <= s.len(),
        s.subrange(q6, q7) == ",\n  \"CrashSeverity\": {\n    \"Type\": "@,
        q7 <= q8 <= s.len(),
        s.subrange(q7, q8) == quote(v8),
        q8 <= q9 <= s.len(),
        s.subrange(q8, q9) == ",\n    \"ShortDescription\": "@,
        q9 <= q10 <= s.len(),
        s.subrange(q9, q10) == quote(v10),
        q10 <= q11 <= s.len(),
        s.subrange(q10, q11) == ",\n    \"Description\": "@,
        q11 <= q12 <= s.len(),
        s.subrange(q11, q12) == quote(v12),
        q12 <= q13 <= s.len(),
        s.subrange(q12, q13) == ",\n    \"Explanation\": "@,
        q13 <= q14 <= s.len(),
        s.subrange(q13, q14) == quote(v14),
        q14 <= q15 <= s.len(),
        s.subrange(q14, q15) == "\n  },\n  \"AsanReport\": "@,
        q15 <= q16 <= s.len(),
        s.subrange(q15, q16) == arr_of(a16),
        q16 <= q17 <= s.len(),
        s.subrange(q16, q17) == ",\n  \"Stacktrace\": "@,
        q17 <= q18 <= s.len(),
        s.subrange(q17, q18) == arr_of(a18),
        q18 <= q19 <= s.len(),
        s.subrange(q18, q19) == ",\n  \"ProcMaps\": "@,
        q19 <= q20 <= s.len(),
        s.subrange(q19, q20) == arr_of(a20),
        q20 <= q21 <= s.len(),
        s.subrange(q20, q21) == ",\n  \"CrashLine\": "@,
        q21 <= q22 <= s.len(),
        s.subrange(q21, q22) == quote(v22),
        q22 <= q23 <= s.len(),
        s.subrange(q22, q23) == ",\n  \"Source\": "@,
        q23 <= q24 <= s.len(),
        s.subrange(q23, q24) == arr_of(a24),
        q24 <= q25 <= s.len(),
        s.subrange(q24, q25) == "\n}"@,
    ensures
        s.subrange(0, q25) == json_of((ReportSpec { executable_path: v2, proc_cmdline: v4, os_info: v6, execution_class: ClassSpec { severity: v8, short_description: v10, description: v12, explanation: v14 }, asan_report: a16, stacktrace: a18, proc_maps: a20, crashline: v22, source: a24 })),
{
    assert(s.subrange(0, q1) =~= s.subrange(0, 0) + s.subrange(0, q1));
    assert(s.subrange(0, q1) == "{\n  \"ExecutablePath\": "@);
    assert(s.subrange(0, q2) =~= s.subrange(0, q1) + s.subrange(q1, q2));
    assert(s.subrange(0, q2) == "{\n  \"ExecutablePath\": "@ + quote(v2));
    assert(s.subrange(0, q3) =~= s.subrange(0, q2) + s.subrange(q2, q3));
    assert(s.subrange(0, q3) == "{\n  \"ExecutablePath\": "@ + quote(v2) + ",\n  \"ProcCmdline\": "@);
    assert(s.subrange(0, q4) =~= s.subrange(0, q3) + s.subrange(q3, q4));
    assert(s.subrange(0, q4) == "{\n  \"ExecutablePath\": "@ + quote(v2) + ",\n  \"ProcCmdline\": "@ + quote(v4));
    assert(s.subrange(0, q5) =~= s.subrange(0, q4) + s.subrange(q4, q5));
    assert(s.subrange(0, q5) == "{\n  \"ExecutablePath\": "@ + quote(v2) + ",\n  \"ProcCmdline\": "@ + quote(v4) + ",\n  \"OsInfo\": "@);
    assert(s.subrange(0, q6) =~= s.subrange(0, q5) + s.subrange(q5, q6));
    assert(s.subrange(0, q6) == "{\n  \"ExecutablePath\": "@ + quote(v2) + ",\n  \"ProcCmdline\": "@ + quote(v4) + ",\n  \"OsInfo\": "@ + quote(v6));
    assert(s.subrange(0, q7) =~= s.subrange(0, q6) + s.subrange(q6, q7));
    assert(s.subrange(0, q7) == "{\n  \"ExecutablePath\": "@ + quote(v2) + ",\n  \"ProcCmdline\": "@ + quote(v4) + ",\n  \"OsInfo\": "@ + quote(v6) + ",\n  \"CrashSeverity\": {\n    \"Type\": "@);
    assert(s.subrange(0, q8) =~= s.subrange(0, q7) + s.subrange(q7, q8));
    assert(s.subrange(0, q8) == "{\n  \"ExecutablePath\": "@ + quote(v2) + ",\n  \"ProcCmdline\": "@ + quote(v4) + ",\n  \"OsInfo\": "@ + quote(v6) + ",\n  \"CrashSeverity\": {\n    \"Type\": "@ + quote(v8));
    assert(s.subrange(0, q9) =~= s.subrange(0, q8) + s.subrange(q8, q9));
    assert(s.subrange(0, q9) == "{\n  \"ExecutablePath\": "@ + quote(v2) + ",\n  \"ProcCmdline\": "@ + quote(v4) + ",\n  \"OsInfo\": "@ + quote(v6) + ",\n  \"CrashSeverity\": {\n    \"Type\": "@ + quote(v8) + ",\n    \"ShortDescription\": "@);
    assert(s.subrange(0, q10) =~= s.subrange(0, q9) + s.subrange(q9, q10));
    assert(s.subrange(0, q10) == "{\n  \"ExecutablePath\": "@ + quote(v2) + ",\n  \"ProcCmdline\": "@ + quote(v4) + ",\n  \"OsInfo\": "@ + quote(v6) + ",\n  \"CrashSeverity\": {\n    \"Type\": "@ + quote(v8) + ",\n    \"ShortDescription\": "@ + quote(v10));
    assert(s.subrange(0, q11) =~= s.subrange(0, q10) + s.subrange(q10, q11));
    assert(s.subrange(0, q11) == "{\n  \"ExecutablePath\": "@ + quote(v2) + ",\n  \"ProcCmdline\": "@ + quote(v4) + ",\n  \"OsInfo\": "@ + quote(v6) + ",\n  \"CrashSeverity\": {\n    \"Type\": "@ + quote(v8) + ",\n    \"ShortDescription\": "@ + quote(v10) + ",\n    \"Description\": "@);
    assert(s.subrange(0, q12) =~= s.subrange(0, q11) + s.subrange(q11, q12));
    assert(s.subrange(0, q12) == "{\n  \"ExecutablePath\": "@ + quote(v2) + ",\n  \"ProcCmdline\": "@ + quote(v4) + ",\n  \"OsInfo\": "@ + quote(v6) + ",\n  \"CrashSeverity\": {\n    \"Type\": "@ + quote(v8) + ",\n    \"ShortDescription\": "@ + quote(v10) + ",\n    \"Description\": "@ + quote(v12));
    assert(s.subrange(0, q13) =~= s.subrange(0, q12) + s.subrange(q12, q13));
    assert(s.subrange(0, q13) == "{\n  \"ExecutablePath\": "@ + quote(v2) + ",\n  \"ProcCmdline\": "@ + quote(v4) + ",\n  \"OsInfo\": "@ + quote(v6) + ",\n  \"CrashSeverity\": {\n    \"Type\": "@ + quote(v8) + ",\n    \"ShortDescription\": "@ + quote(v10) + ",\n    \"Description\": "@ + quote(v12) + ",\n    \"Explanation\": "@);
    assert(s.subrange(0, q14) =~= s.subrange(0, q13) + s.subrange(q13, q14));
    assert(s.subrange(0, q14) == "{\n  \"ExecutablePath\": "@ + quote(v2) + ",\n  \"ProcCmdline\": "@ + quote(v4) + ",\n  \"OsInfo\": "@ + quote(v6) + ",\n  \"CrashSeverity\": {\n    \"Type\": "@ + quote(v8) + ",\n    \"ShortDescription\": "@ + quote(v10) + ",\n    \"Description\": "@ + quote(v12) + ",\n    \"Explanation\": "@ + quote(v14));
    assert(s.subrange(0, q15) =~= s.subrange(0, q14) + s.subrange(q14, q15));
    assert(s.subrange(0, q15) == "{\n  \"ExecutablePath\": "@ + quote(v2) + ",\n  \"ProcCmdline\": "@ + quote(v4) + ",\n  \"OsInfo\": "@ + quote(v6) + ",\n  \"CrashSeverity\": {\n    \"Type\": "@ + quote(v8) + ",\n    \"ShortDescription\": "@ + quote(v10) + ",\n    \"Description\": "@ + quote(v12) + ",\n    \"Explanation\": "@ + quote(v14) + "\n  },\n  \"AsanReport\": "@);
    assert(s.subrange(0, q16) =~= s.subrange(0, q15) + s.subrange(q15, q16));
    assert(s.subrange(0, q16) == "{\n  \"ExecutablePath\": "@ + quote(v2) + ",\n  \"ProcCmdline\": "@ + quote(v4) + ",\n  \"OsInfo\": "@ + quote(v6) + ",\n  \"CrashSeverity\": {\n    \"Type\": "@ + quote(v8) + ",\n    \"ShortDescription\": "@ + quote(v10) + ",\n    \"Description\": "@ + quote(v12) + ",\n    \"Explanation\": "@ + quote(v14) + "\n  },\n  \"AsanReport\": "@ + arr_of(a16));
    assert(s.subrange(0, q17) =~= s.subrange(0, q16) + s.subrange(q16, q17));
    assert(s.subrange(0, q17) == "{\n  \"ExecutablePath\": "@ + quote(v2) + ",\n  \"ProcCmdline\": "@ + quote(v4) + ",\n  \"OsInfo\": "@ + quote(v6) + ",\n  \"CrashSeverity\": {\n    \"Type\": "@ + quote(v8) + ",\n    \"ShortDescription\": "@ + quote(v10) + ",\n    \"Description\": "@ + quote(v12) + ",\n    \"Explanation\": "@ + quote(v14) + "\n  },\n  \"AsanReport\": "@ + arr_of(a16) + ",\n  \"Stacktrace\": "@);
    assert(s.subrange(0, q18) =~= s.subrange(0, q17) + s.subrange(q17, q18));
    assert(s.subrange(0, q18) == "{\n  \"ExecutablePath\": "@ + quote(v2) + ",\n  \"ProcCmdline\": "@ + quote(v4) + ",\n  \"OsInfo\": "@ + quote(v6) + ",\n  \"CrashSeverity\": {\n    \"Type\": "@ + quote(v8) + ",\n    \"ShortDescription\": "@ + quote(v10) + ",\n    \"Description\": "@ + quote(v12) + ",\n    \"Explanation\": "@ + quote(v14) + "\n  },\n  \"AsanReport\": "@ + arr_of(a16) + ",\n  \"Stacktrace\": "@ + arr_of(a18));
    assert(s.subrange(0, q19) =~= s.subrange(0, q18) + s.subrange(q18, q19));
    assert(s.subrange(0, q19) == "{\n  \"ExecutablePath\": "@ + quote(v2) + ",\n  \"ProcCmdline\": "@ + quote(v4) + ",\n  \"OsInfo\": "@ + quote(v6) + ",\n  \"CrashSeverity\": {\n    \"Type\": "@ + quote(v8) + ",\n    \"ShortDescription\": "@ + quote(v10) + ",\n    \"Description\": "@ + quote(v12) + ",\n    \"Explanation\": "@ + quote(v14) + "\n  },\n  \"AsanReport\": "@ + arr_of(a16) + ",\n  \"Stacktrace\": "@ + arr_of(a18) + ",\n  \"ProcMaps\": "@);
    assert(s.subrange(0, q20) =~= s.subrange(0, q19) + s.subrange(q19, q20));
    assert(s.subrange(0, q20) == "{\n  \"ExecutablePath\": "@ + quote(v2) + ",\n  \"ProcCmdline\": "@ + quote(v4) + ",\n  \"OsInfo\": "@ + quote(v6) + ",\n  \"CrashSeverity\": {\n    \"Type\": "@ + quote(v8) + ",\n    \"ShortDescription\": "@ + quote(v10) + ",\n    \"Description\": "@ + quote(v12) + ",\n    \"Explanation\": "@ + quote(v14) + "\n  },\n  \"AsanReport\": "@ + arr_of(a16) + ",\n  \"Stacktrace\": "@ + arr_of(a18) + ",\n  \"ProcMaps\": "@ + arr_of(a20));
    assert(s.subrange(0, q21) =~= s.subrange(0, q20) + s.subrange(q20, q21));
    assert(s.subrange(0, q21) == "{\n  \"ExecutablePath\": "@ + quote(v2) + ",\n  \"ProcCmdline\": "@ + quote(v4) + ",\n  \"OsInfo\": "@ + quote(v6) + ",\n  \"CrashSeverity\": {\n    \"Type\": "@ + quote(v8) + ",\n    \"ShortDescription\": "@ + quote(v10) + ",\n    \"Description\": "@ + quote(v12) + ",\n    \"Explanation\": "@ + quote(v14) + "\n  },\n  \"AsanReport\": "@ + arr_of(a16) + ",\n  \"Stacktrace\": "@ + arr_of(a18) + ",\n  \"ProcMaps\": "@ + arr_of(a20) + ",\n  \"CrashLine\": "@);
    assert(s.subrange(0, q22) =~= s.subrange(0, q21) + s.subrange(q21, q22));
    assert(s.subrange(0, q22) == "{\n  \"ExecutablePath\": "@ + quote(v2) + ",\n  \"ProcCmdline\": "@ + quote(v4) + ",\n  \"OsInfo\": "@ + quote(v6) + ",\n  \"CrashSeverity\": {\n    \"Type\": "@ + quote(v8) + ",\n    \"ShortDescription\": "@ + quote(v10) + ",\n    \"Description\": "@ + quote(v12) + ",\n    \"Explanation\": "@ + quote(v14) + "\n  },\n  \"AsanReport\": "@ + arr_of(a16) + ",\n  \"Stacktrace\": "@ + arr_of(a18) + ",\n  \"ProcMaps\": "@ + arr_of(a20) + ",\n  \"CrashLine\": "@ + quote(v22));
    assert(s.subrange(0, q23) =~= s.subrange(0, q22) + s.subrange(q22, q23));
    assert(s.subrange(0, q23) == "{\n  \"ExecutablePath\": "@ + quote(v2) + ",\n  \"ProcCmdline\": "@ + quote(v4) + ",\n  \"OsInfo\": "@ + quote(v6) + ",\n  \"CrashSeverity\": {\n    \"Type\": "@ + quote(v8) + ",\n    \"ShortDescription\": "@ + quote(v10) + ",\n    \"Description\": "@ + quote(v12) + ",\n    \"Explanation\": "@ + quote(v14) + "\n  },\n  \"AsanReport\": "@ + arr_of(a16) + ",\n  \"Stacktrace\": "@ + arr_of(a18) + ",\n  \"ProcMaps\": "@ + arr_of(a20) + ",\n  \"CrashLine\": "@ + quote(v22) + ",\n  \"Source\": "@);
    assert(s.subrange(0, q24) =~= s.subrange(0, q23) + s.subrange(q23, q24));
    assert(s.subrange(0, q24) == "{\n  \"ExecutablePath\": "@ + quote(v2) + ",\n  \"ProcCmdline\": "@ + quote(v4) + ",\n  \"OsInfo\": "@ + quote(v6) + ",\n  \"CrashSeverity\": {\n    \"Type\": "@ + quote(v8) + ",\n    \"ShortDescription\": "@ + quote(v10) + ",\n    \"Description\": "@ + quote(v12) + ",\n    \"Explanation\": "@ + quote(v14) + "\n  },\n  \"AsanReport\": "@ + arr_of(a16) + ",\n  \"Stacktrace\": "@ + arr_of(a18) + ",\n  \"ProcMaps\": "@ + arr_of(a20) + ",\n  \"CrashLine\": "@ + quote(v22) + ",\n  \"Source\": "@ + arr_of(a24));
    assert(s.subrange(0, q25) =~= s.subrange(0, q24) + s.subrange(q24, q25));
    assert(s.subrange(0, q25) == "{\n  \"ExecutablePath\": "@ + quote(v2) + ",\n  \"ProcCmdline\": "@ + quote(v4) + ",\n  \"OsInfo\": "@ + quote(v6) + ",\n  \"CrashSeverity\": {\n    \"Type\": "@ + quote(v8) + ",\n    \"ShortDescription\": "@ + quote(v10) + ",\n    \"Description\": "@ + quote(v12) + ",\n    \"Explanation\": "@ + quote(v14) + "\n  },\n  \"AsanReport\": "@ + arr_of(a16) + ",\n  \"Stacktrace\": "@ + arr_of(a18) + ",\n  \"ProcMaps\": "@ + arr_of(a20) + ",\n  \"CrashLine\": "@ + quote(v22) + ",\n  \"Source\": "@ + arr_of(a24) + "\n}"@);
    assert(s.subrange(0, q25) == json_of((ReportSpec { executable_path: v2, proc_cmdline: v4, os_info: v6, execution_class: ClassSpec { severity: v8, short_description: v10, description: v12, explanation: v14 }, asan_report: a16, stacktrace: a18, proc_maps: a20, crashline: v22, source: a24 })));
}


impl CrashReport {
    /// Read a report back from its serialized form. A successful parse is
    /// sound — the returned report re-encodes to exactly the given text —
    /// and failure is honest: no report at all serializes to the text.
    #[verifier::rlimit(100)]
    pub fn from_json(s: &str) -> (r: Option<CrashReport>)
        ensures
            r matches Some(rep) ==> s@ == json_of(rep@),
            r is None ==> forall|m: ReportSpec| s@ != json_of(m),
    {
        let len = s.unicode_len();
        let p0: usize = 0;
        let p1 = match expect_lit(s, len, p0, "{\n  \"ExecutablePath\": ") {
            Some(j) => j,
            None => {
                proof {
                    lemma_no_report_1(s@);
                }
                return None;
            },
        };
        let (exe, p2) = match parse_string(s, len, p1) {
            Some(x) => x,
            None => {
                proof {
                    lemma_no_report_2(s@, p1 as int);
                }
                return None;
            },
        };
        let p3 = match expect_lit(s, len, p2, ",\n  \"ProcCmdline\": ") {
            Some(j) => j,
            None => {
                proof {
                    lemma_no_report_3(s@, p1 as int, p2 as int, exe@);
                }
                return None;
            },
        };
        let (cmd, p4) = match parse_string(s, len, p3) {
            Some(x) => x,
            None => {
                proof {
                    lemma_no_report_4(s@, p1 as int, p2 as int, exe@, p3 as int);
                }
                return None;
            },
        };
        let p5 = match expect_lit(s, len, p4, ",\n  \"OsInfo\": ") {
            Some(j) => j,
            None => {
                proof {
                    lemma_no_report_5(s@, p1 as int, p2 as int, exe@, p3 as int, p4 as int, cmd@);
                }
                return None;
            },
        };
        let (osi, p6) = match parse_string(s, len, p5) {
            Some(x) => x,
            None => {
                proof {
                    lemma_no_report_6(s@, p1 as int, p2 as int, exe@, p3 as int, p4 as int, cmd@, p5 as int);
                }
                return None;
            },
        };
        let p7 = match expect_lit(s, len, p6, ",\n  \"CrashSeverity\": {\n    \"Type\": ") {
            Some(j) => j,
            None => {
                proof {
                    lemma_no_report_7(s@, p1 as int, p2 as int, exe@, p3 as int, p4 as int, cmd@, p5 as int, p6 as int, osi@);
                }
                return None;
            },
        };
        let (sev, p8) = match parse_string(s, len, p7) {
            Some(x) => x,
            None => {
                proof {
                    lemma_no_report_8(s@, p1 as int, p2 as int, exe@, p3 as int, p4 as int, cmd@, p5 as int, p6 as int, osi@, p7 as int);
                }
                return None;
            },
        };
        let p9 = match expect_lit(s, len, p8, ",\n    \"ShortDescription\": ") {
            Some(j) => j,
            None => {
                proof {
                    lemma_no_report_9(s@, p1 as int, p2 as int, exe@, p3 as int, p4 as int, cmd@, p5 as int, p6 as int, osi@, p7 as int, p8 as int, sev@);
                }
                return None;
            },
        };
        let (sd, p10) = match parse_string(s, len, p9) {
            Some(x) => x,
            None => {
                proof {
                    lemma_no_report_10(s@, p1 as int, p2 as int, exe@, p3 as int, p4 as int, cmd@, p5 as int, p6 as int, osi@, p7 as int, p8 as int, sev@, p9 as int);
                }
                return None;
            },
        };
        let p11 = match expect_lit(s, len, p10, ",\n    \"Description\": ") {
            Some(j) => j,
            None => {
                proof {
                    lemma_no_report_11(s@, p1 as int, p2 as int, exe@, p3 as int, p4 as int, cmd@, p5 as int, p6 as int, osi@, p7 as int, p8 as int, sev@, p9 as int, p10 as int, sd@);
                }
                return None;
            },
        };
        let (descr, p12) = match parse_string(s, len, p11) {
            Some(x) => x,
            None => {
                proof {
                    lemma_no_report_12(s@, p1 as int, p2 as int, exe@, p3 as int, p4 as int, cmd@, p5 as int, p6 as int, osi@, p7 as int, p8 as int, sev@, p9 as int, p10 as int, sd@, p11 as int);
                }
                return None;
            },
        };
        let p13 = match expect_lit(s, len, p12, ",\n    \"Explanation\": ") {
            Some(j) => j,
            None => {
                proof {
                    lemma_no_report_13(s@, p1 as int, p2 as int, exe@, p3 as int, p4 as int, cmd@, p5 as int, p6 as int, osi@, p7 as int, p8 as int, sev@, p9 as int, p10 as int, sd@, p11 as int, p12 as int, descr@);
                }
                return None;
            },
        };
        let (expl, p14) = match parse_string(s, len, p13) {
            Some(x) => x,
            None => {
                proof {
                    lemma_no_report_14(s@, p1 as int, p2 as int, exe@, p3 as int, p4 as int, cmd@, p5 as int, p6 as int, osi@, p7 as int, p8 as int, sev@, p9 as int, p10 as int, sd@, p11 as int, p12 as int, descr@, p13 as int);
                }
                return None;
            },
        };
        let p15 = match expect_lit(s, len, p14, "\n  },\n  \"AsanReport\": ") {
            Some(j) => j,
            None => {
                proof {
                    lemma_no_report_15(s@, p1 as int, p2 as int, exe@, p3 as int, p4 as int, cmd@, p5 as int, p6 as int, osi@, p7 as int, p8 as int, sev@, p9 as int, p10 as int, sd@, p11 as int, p12 as int, descr@, p13 as int, p14 as int, expl@);
                }
                return None;
            },
        };
        let (asan, p16) = match parse_array(s, len, p15) {
            Some(x) => x,
            None => {
                proof {
                    lemma_no_report_16(s@, p1 as int, p2 as int, exe@, p3 as int, p4 as int, cmd@, p5 as int, p6 as int, osi@, p7 as int, p8 as int, sev@, p9 as int, p10 as int, sd@, p11 as int, p12 as int, descr@, p13 as int, p14 as int, expl@, p15 as int);
                }
                return None;
            },
        };
        let p17 = match expect_lit(s, len, p16, ",\n  \"Stacktrace\": ") {
            Some(j) => j,
            None => {
                proof {
                    lemma_no_report_17(s@, p1 as int, p2 as int, exe@, p3 as int, p4 as int, cmd@, p5 as int, p6 as int, osi@, p7 as int, p8 as int, sev@, p9 as int, p10 as int, sd@, p11 as int, p12 as int, descr@, p13 as int, p14 as int, expl@, p15 as int, p16 as int, asan.deep_view());
                }
                return None;
            },
        };
        let (st, p18) = match parse_array(s, len, p17) {
            Some(x) => x,
            None => {
                proof {
                    lemma_no_report_18(s@, p1 as int, p2 as int, exe@, p3 as int, p4 as int, cmd@, p5 as int, p6 as int, osi@, p7 as int, p8 as int, sev@, p9 as int, p10 as int, sd@, p11 as int, p12 as int, descr@, p13 as int, p14 as int, expl@, p15 as int, p16 as int, asan.deep_view(), p17 as int);
                }
                return None;
            },
        };
        let p19 = match expect_lit(s, len, p18, ",\n  \"ProcMaps\": ") {
            Some(j) => j,
            None => {
                proof {
                    lemma_no_report_19(s@, p1 as int, p2 as int, exe@, p3 as int, p4 as int, cmd@, p5 as int, p6 as int, osi@, p7 as int, p8 as int, sev@, p9 as int, p10 as int, sd@, p11 as int, p12 as int, descr@, p13 as int, p14 as int, expl@, p15 as int, p16 as int, asan.deep_view(), p17 as int, p18 as int, st.deep_view());
                }
                return None;
            },
        };
        let (pm, p20) = match parse_array(s, len, p19) {
            Some(x) => x,
            None => {
                proof {
                    lemma_no_report_20(s@, p1 as int, p2 as int, exe@, p3 as int, p4 as int, cmd@, p5 as int, p6 as int, osi@, p7 as int, p8 as int, sev@, p9 as int, p10 as int, sd@, p11 as int, p12 as int, descr@, p13 as int, p14 as int, expl@, p15 as int, p16 as int, asan.deep_view(), p17 as int, p18 as int, st.deep_view(), p19 as int);
                }
                return None;
            },
        };
        let p21 = match expect_lit(s, len, p20, ",\n  \"CrashLine\": ") {
            Some(j) => j,
            None => {
                proof {
                    lemma_no_report_21(s@, p1 as int, p2 as int, exe@, p3 as int, p4 as int, cmd@, p5 as int, p6 as int, osi@, p7 as int, p8 as int, sev@, p9 as int, p10 as int, sd@, p11 as int, p12 as int, descr@, p13 as int, p14 as int, expl@, p15 as int, p16 as int, asan.deep_view(), p17 as int, p18 as int, st.deep_view(), p19 as int, p20 as int, pm.deep_view());
                }
                return None;
            },
        };
        let (cl, p22) = match parse_string(s, len, p21) {
            Some(x) => x,
            None => {
                proof {
                    lemma_no_report_22(s@, p1 as int, p2 as int, exe@, p3 as int, p4 as int, cmd@, p5 as int, p6 as int, osi@, p7 as int, p8 as int, sev@, p9 as int, p10 as int, sd@, p11 as int, p12 as int, descr@, p13 as int, p14 as int, expl@, p15 as int, p16 as int, asan.deep_view(), p17 as int, p18 as int, st.deep_view(), p19 as int, p20 as int, pm.deep_view(), p21 as int);
                }
                return None;
            },
        };
        let p23 = match expect_lit(s, len, p22, ",\n  \"Source\": ") {
            Some(j) => j,
            None => {
                proof {
                    lemma_no_report_23(s@, p1 as int, p2 as int, exe@, p3 as int, p4 as int, cmd@, p5 as int, p6 as int, osi@, p7 as int, p8 as int, sev@, p9 as int, p10 as int, sd@, p11 as int, p12 as int, descr@, p13 as int, p14 as int, expl@, p15 as int, p16 as int, asan.deep_view(), p17 as int, p18 as int, st.deep_view(), p19 as int, p20 as int, pm.deep_view(), p21 as int, p22 as int, cl@);
                }
                return None;
            },
        };
        let (src, p24) = match parse_array(s, len, p23) {
            Some(x) => x,
            None => {
                proof {
                    lemma_no_report_24(s@, p1 as int, p2 as int, exe@, p3 as int, p4 as int, cmd@, p5 as int, p6 as int, osi@, p7 as int, p8 as int, sev@, p9 as int, p10 as int, sd@, p11 as int, p12 as int, descr@, p13 as int, p14 as int, expl@, p15 as int, p16 as int, asan.deep_view(), p17 as int, p18 as int, st.deep_view(), p19 as int, p20 as int, pm.deep_view(), p21 as int, p22 as int, cl@, p23 as int);
                }
                return None;
            },
        };
        let p25 = match expect_lit(s, len, p24, "\n}") {
            Some(j) => j,
            None => {
                proof {
                    lemma_no_report_25(s@, p1 as int, p2 as int, exe@, p3 as int, p4 as int, cmd@, p5 as int, p6 as int, osi@, p7 as int, p8 as int, sev@, p9 as int, p10 as int, sd@, p11 as int, p12 as int, descr@, p13 as int, p14 as int, expl@, p15 as int, p16 as int, asan.deep_view(), p17 as int, p18 as int, st.deep_view(), p19 as int, p20 as int, pm.deep_view(), p21 as int, p22 as int, cl@, p23 as int, p24 as int, src.deep_view());
                }
                return None;
            },
        };
        if p25 != len {
            proof {
                lemma_no_report_trailing(s@, p1 as int, p2 as int, exe@, p3 as int, p4 as int, cmd@, p5 as int, p6 as int, osi@, p7 as int, p8 as int, sev@, p9 as int, p10 as int, sd@, p11 as int, p12 as int, descr@, p13 as int, p14 as int, expl@, p15 as int, p16 as int, asan.deep_view(), p17 as int, p18 as int, st.deep_view(), p19 as int, p20 as int, pm.deep_view(), p21 as int, p22 as int, cl@, p23 as int, p24 as int, src.deep_view(), p25 as int);
            }
            return None;
        }
        let rep = CrashReport {
            executable_path: exe,
            proc_cmdline: cmd,
            os_info: osi,
            execution_class: ExecutionClass {
                severity: sev,
                short_description: sd,
                description: descr,
                explanation: expl,
            },
            asan_report: asan,
            stacktrace: st,
            proc_maps: pm,
            crashline: cl,
            source: src,
        };
        proof {
            lemma_json_assemble(s@,
                p1 as int,
                p2 as int,
                exe@,
                p3 as int,
                p4 as int,
                cmd@,
                p5 as int,
                p6 as int,
                osi@,
                p7 as int,
                p8 as int,
                sev@,
                p9 as int,
                p10 as int,
                sd@,
                p11 as int,
                p12 as int,
                descr@,
                p13 as int,
                p14 as int,
                expl@,
                p15 as int,
                p16 as int,
                asan.deep_view(),
                p17 as int,
                p18 as int,
                st.deep_view(),
                p19 as int,
                p20 as int,
                pm.deep_view(),
                p21 as int,
                p22 as int,
                cl@,
                p23 as int,
                p24 as int,
                src.deep_view(),
                p25 as int);
            assert(rep@ == (ReportSpec { executable_path: exe@, proc_cmdline: cmd@, os_info: osi@, execution_class: ClassSpec { severity: sev@, short_description: sd@, description: descr@, explanation: expl@ }, asan_report: asan.deep_view(), stacktrace: st.deep_view(), proc_maps: pm.deep_view(), crashline: cl@, source: src.deep_view() }));
            assert(s@ =~= s@.subrange(0, len as int));
            assert(s@ == json_of(rep@));
        }
        Some(rep)
    }

    /// Serialize the report: stable field names, fixed order, pretty-printed.
    pub fn to_json(&self) -> (r: String)
        ensures
            r@ == json_of(self@),
    {
        let mut out = String::new();
        out.append("{\n  \"ExecutablePath\": ");
        quote_into(&mut out, self.executable_path.as_str());
        out.append(",\n  \"ProcCmdline\": ");
        quote_into(&mut out, self.proc_cmdline.as_str());
        out.append(",\n  \"OsInfo\": ");
        quote_into(&mut out, self.os_info.as_str());
        out.append(",\n  \"CrashSeverity\": {\n    \"Type\": ");
        quote_into(&mut out, self.execution_class.severity.as_str());
        out.append(",\n    \"ShortDescription\": ");
        quote_into(&mut out, self.execution_class.short_description.as_str());
        out.append(",\n    \"Description\": ");
        quote_into(&mut out, self.execution_class.description.as_str());
        out.append(",\n    \"Explanation\": ");
        quote_into(&mut out, self.execution_class.explanation.as_str());
        out.append("\n  },\n  \"AsanReport\": ");
        arr_into(&mut out, &self.asan_report);
        out.append(",\n  \"Stacktrace\": ");
        arr_into(&mut out, &self.stacktrace);
        out.append(",\n  \"ProcMaps\": ");
        arr_into(&mut out, &self.proc_maps);
        out.append(",\n  \"CrashLine\": ");
        quote_into(&mut out, self.crashline.as_str());
        out.append(",\n  \"Source\": ");
        arr_into(&mut out, &self.source);
        out.append("\n}");
        proof {
            assert(out@ =~= json_of(self@));
        }
        out
    }
}

} // verus!
