//! Stack-trace extractor: the bounded trace region of a sanitizer report,
//! and the verbatim trace and memory map of an external debugger transcript.

use vstd::prelude::*;

use crate::error::Error;
use crate::text::{
    contains_str, contains_sub, first_pos, lemma_first_pos_is, lines_of, split_lines,
    trim_spec, trim_str,
};

verus! {

/// Index of the first line holding the frame-zero marker, or the line count.
pub open spec fn frame_index(dv: Seq<Seq<char>>) -> int {
    first_pos(dv.len() as int, 0, |k: int| contains_sub(dv[k], " #0 "@))
}

/// Index of the first empty line at or after `f`, or the line count.
pub open spec fn trace_end_index(dv: Seq<Seq<char>>, f: int) -> int {
    first_pos(dv.len() as int, f, |k: int| dv[k].len() == 0)
}

/// The stack trace of a sanitizer report: the lines from the frame-zero
/// marker up to the first empty line, each trimmed of surrounding
/// whitespace; or the error naming the missing bound.
pub open spec fn stacktrace_of(dv: Seq<Seq<char>>) -> Result<Seq<Seq<char>>, Error> {
    let f = frame_index(dv);
    if f >= dv.len() {
        Err(Error::StackTraceNotFound)
    } else {
        let e = trace_end_index(dv, f);
        if e >= dv.len() {
            Err(Error::StackTraceEndNotFound)
        } else {
            Ok(dv.subrange(f, e).map_values(|l: Seq<char>| trim_spec(l)))
        }
    }
}

/// Extract the stack trace from the sanitizer-report excerpt.
pub fn extract_stacktrace(report: &Vec<String>) -> (r: Result<Vec<String>, Error>)
    ensures
        match r {
            Ok(v) => stacktrace_of(report.deep_view()) == Ok::<Seq<Seq<char>>, Error>(
                v.deep_view(),
            ),
            Err(e) => stacktrace_of(report.deep_view()) == Err::<Seq<Seq<char>>, Error>(e),
        },
{
    let ghost dv = report.deep_view();
    let n = report.len();
    // Find the frame-zero marker.
    let mut f: usize = 0;
    while f < n
        invariant
            dv == report.deep_view(),
            n == dv.len(),
            f <= n,
            forall|j: int| 0 <= j < f ==> !contains_sub(dv[j], " #0 "@),
        ensures
            f <= n,
            forall|j: int| 0 <= j < f ==> !contains_sub(dv[j], " #0 "@),
            f < n ==> contains_sub(dv[f as int], " #0 "@),
        decreases n - f,
    {
        if contains_str(report[f].as_str(), " #0 ") {
            break;
        }
        f = f + 1;
    }
    proof {
        lemma_first_pos_is(n as int, 0, f as int, |k: int| contains_sub(dv[k], " #0 "@));
    }
    if f == n {
        return Err(Error::StackTraceNotFound);
    }
    // The trace runs to the first empty line after the marker.
    let mut e: usize = f;
    while e < n
        invariant
            dv == report.deep_view(),
            n == dv.len(),
            f <= e <= n,
            forall|j: int| f <= j < e ==> dv[j].len() != 0,
        ensures
            f <= e <= n,
            forall|j: int| f <= j < e ==> dv[j].len() != 0,
            e < n ==> dv[e as int].len() == 0,
        decreases n - e,
    {
        if report[e].as_str().is_empty() {
            break;
        }
        e = e + 1;
    }
    proof {
        lemma_first_pos_is(n as int, f as int, e as int, |k: int| dv[k].len() == 0);
    }
    if e == n {
        return Err(Error::StackTraceEndNotFound);
    }
    // Copy the bounded region, trimming each line.
    let mut v: Vec<String> = Vec::new();
    let mut i: usize = f;
    while i < e
        invariant
            dv == report.deep_view(),
            n == dv.len(),
            f <= i <= e <= n,
            v.deep_view() =~= dv.subrange(f as int, i as int).map_values(
                |l: Seq<char>| trim_spec(l),
            ),
        decreases e - i,
    {
        let ghost dv0 = v.deep_view();
        v.push(trim_str(report[i].as_str()));
        proof {
            assert(v.deep_view() =~= dv0.push(trim_spec(dv[i as int])));
            assert(dv.subrange(f as int, i + 1).map_values(|l: Seq<char>| trim_spec(l))
                =~= dv.subrange(f as int, i as int).map_values(|l: Seq<char>| trim_spec(l)).push(
                trim_spec(dv[i as int]),
            ));
        }
        i = i + 1;
    }
    Ok(v)
}

/// Exactly the lines a debugger transcript discards from the head of its
/// memory-map output.
pub open spec fn map_header_len() -> int {
    4
}

/// The memory map of a debugger transcript: all lines after the fixed
/// four-line header, whatever those four lines hold.
pub open spec fn map_tail(dv: Seq<Seq<char>>) -> Seq<Seq<char>> {
    if dv.len() <= map_header_len() {
        Seq::empty()
    } else {
        dv.skip(map_header_len())
    }
}

/// Law: the extracted memory map is the raw transcript minus exactly its
/// first four lines, whatever those lines hold: item `k` of the map is
/// line `k + 4` of the transcript.
pub proof fn lemma_map_tail_drops_header(dv: Seq<Seq<char>>)
    ensures
        map_tail(dv).len() == (if dv.len() <= 4 {
            0int
        } else {
            dv.len() - 4
        }),
        forall|k: int| 0 <= k < map_tail(dv).len() ==> map_tail(dv)[k] == dv[k + 4],
{
}

/// Split the debugger's backtrace blob into the stack trace, verbatim.
pub fn debugger_stacktrace(bt: &str) -> (v: Vec<String>)
    ensures
        v.deep_view() == lines_of(bt@),
{
    split_lines(bt)
}

/// Split the debugger's memory-map blob into lines and discard the
/// four-line header.
pub fn debugger_proc_maps(maps: &str) -> (v: Vec<String>)
    ensures
        v.deep_view() == map_tail(lines_of(maps@)),
{
    let all = split_lines(maps);
    let ghost dv = all.deep_view();
    let n = all.len();
    let mut v: Vec<String> = Vec::new();
    if n <= 4 {
        proof {
            assert(v.deep_view() =~= map_tail(dv));
        }
        return v;
    }
    let mut i: usize = 4;
    while i < n
        invariant
            dv == all.deep_view(),
            n == dv.len(),
            4 <= i <= n,
            v.deep_view() =~= dv.subrange(4, i as int),
        decreases n - i,
    {
        let ghost dv0 = v.deep_view();
        v.push(all[i].clone());
        proof {
            assert(v.deep_view() =~= dv0.push(dv[i as int]));
            assert(v.deep_view() =~= dv.subrange(4, i + 1));
        }
        i = i + 1;
    }
    proof {
        assert(v.deep_view() =~= map_tail(dv));
    }
    v
}

} // verus!
