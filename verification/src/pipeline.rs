//! Pipeline driver: decide between the sanitizer and signal paths from the
//! captured standard-error text and the termination status, classify, and
//! extract the stack trace.

use vstd::prelude::*;

use crate::error::Error;
use crate::execution_class::{
    default_class, find_spec, san_find_spec, ClassSpec, ExecutionClass,
};
use crate::extract::{extract_stacktrace, stacktrace_of};
use crate::ingest::{
    access_of, find_report_end, find_report_start, find_summary, has_report,
    lemma_report_end_lower, lemma_report_end_upper, lemma_report_start_nonempty,
    report_end_index, report_start_index, summary_of,
};
use crate::report::{empty_report, CrashReport, ReportSpec};
use crate::text::{contains_str, contains_sub, slice_range, split_lines, lines_of};

verus! {

/// The class actually stored: a resolved one, or the default when no rule
/// produced a class.
pub open spec fn class_or_default(c: Option<ClassSpec>) -> ClassSpec {
    match c {
        Some(cs) => cs,
        None => default_class(),
    }
}

/// The access direction parsed from the report's second line, if any.
pub open spec fn access_rw(excerpt: Seq<Seq<char>>) -> Option<Seq<char>> {
    if excerpt.len() > 1 {
        access_of(excerpt[1])
    } else {
        None
    }
}

/// The class a sanitizer-report excerpt resolves to: `memory-leaks` when
/// the opening line names LeakSanitizer; otherwise the derived lookup on
/// the summary's check name, with the access direction for
/// AddressSanitizer and without one for libFuzzer.
pub open spec fn excerpt_class_spec(excerpt: Seq<Seq<char>>) -> Option<ClassSpec> {
    if excerpt.len() > 0 && contains_sub(excerpt[0], "LeakSanitizer"@) {
        find_spec("memory-leaks"@)
    } else {
        match summary_of(excerpt) {
            Some((fz, check)) => if fz {
                san_find_spec(check, None, false)
            } else {
                san_find_spec(check, access_rw(excerpt), false)
            },
            None => None,
        }
    }
}

/// The class a termination signal resolves to: illegal instruction,
/// abort, or the `SEGV` derivation; anything else resolves to nothing.
pub open spec fn signal_class_spec(sig: int) -> Option<ClassSpec> {
    if sig == 4 {
        find_spec("BadInstruction"@)
    } else if sig == 6 {
        find_spec("AbortSignal"@)
    } else if sig == 11 {
        san_find_spec("SEGV"@, None, false)
    } else {
        None
    }
}

/// Classify a sanitizer-report excerpt.
pub fn classify_excerpt(excerpt: &Vec<String>) -> (r: Option<ExecutionClass>)
    ensures
        match r {
            Some(c) => excerpt_class_spec(excerpt.deep_view()) == Some(c@),
            None => excerpt_class_spec(excerpt.deep_view()) is None,
        },
{
    if excerpt.len() > 0 && contains_str(excerpt[0].as_str(), "LeakSanitizer") {
        match ExecutionClass::find("memory-leaks") {
            Ok(c) => Some(c),
            Err(_) => None,
        }
    } else {
        match find_summary(excerpt) {
            Some((fz, check)) => {
                if fz {
                    match ExecutionClass::san_find(check.as_str(), None, false) {
                        Ok(c) => Some(c),
                        Err(_) => None,
                    }
                } else {
                    let rw = if excerpt.len() > 1 {
                        crate::ingest::find_access(excerpt[1].as_str())
                    } else {
                        None
                    };
                    match ExecutionClass::san_find(check.as_str(), rw, false) {
                        Ok(c) => Some(c),
                        Err(_) => None,
                    }
                }
            },
            None => None,
        }
    }
}

/// Classify a termination signal.
pub fn classify_signal(signal: i32) -> (r: Option<ExecutionClass>)
    ensures
        match r {
            Some(c) => signal_class_spec(signal as int) == Some(c@),
            None => signal_class_spec(signal as int) is None,
        },
{
    if signal == 4 {
        match ExecutionClass::find("BadInstruction") {
            Ok(c) => Some(c),
            Err(_) => None,
        }
    } else if signal == 6 {
        match ExecutionClass::find("AbortSignal") {
            Ok(c) => Some(c),
            Err(_) => None,
        }
    } else if signal == 11 {
        match ExecutionClass::san_find("SEGV", None, false) {
            Ok(c) => Some(c),
            Err(_) => None,
        }
    } else {
        None
    }
}

/// What analysis of the captured text produced: a report complete through
/// trace extraction, or one that still needs the external debugger's
/// backtrace and memory map.
#[derive(Debug)]
pub enum Analysis {
    Complete(CrashReport),
    NeedsDebugger(CrashReport),
}

/// The model of an analysis outcome.
pub enum OutcomeSpec {
    Complete(ReportSpec),
    NeedsDebugger(ReportSpec),
}

impl View for Analysis {
    type V = OutcomeSpec;

    open spec fn view(&self) -> OutcomeSpec {
        match self {
            Analysis::Complete(r) => OutcomeSpec::Complete(r@),
            Analysis::NeedsDebugger(r) => OutcomeSpec::NeedsDebugger(r@),
        }
    }
}

/// The view of an optional termination signal.
pub open spec fn sig_view(s: Option<i32>) -> Option<int> {
    match s {
        Some(x) => Some(x as int),
        None => None,
    }
}

/// The sanitizer-report excerpt: from the first marker line through the
/// last non-empty line.
pub open spec fn excerpt_of(dv: Seq<Seq<char>>) -> Seq<Seq<char>> {
    dv.subrange(report_start_index(dv), report_end_index(dv) + 1)
}

/// What analysis must produce: on the sanitizer path, a complete report
/// whose excerpt, class and trace all derive from the captured text; on
/// the signal path, a signal-classified report awaiting the debugger; and
/// the exact error otherwise.
pub open spec fn analyze_spec(
    stderr: Seq<char>,
    signal: Option<int>,
    exe: Seq<char>,
    cmd: Seq<char>,
    os: Seq<char>,
) -> Result<OutcomeSpec, Error> {
    let dv = lines_of(stderr);
    if has_report(dv) {
        let excerpt = excerpt_of(dv);
        match stacktrace_of(excerpt) {
            Ok(trace) => Ok(
                OutcomeSpec::Complete(
                    ReportSpec {
                        execution_class: class_or_default(excerpt_class_spec(excerpt)),
                        asan_report: excerpt,
                        stacktrace: trace,
                        ..empty_report(exe, cmd, os)
                    },
                ),
            ),
            Err(e) => Err(e),
        }
    } else {
        match signal {
            Some(sig) => Ok(
                OutcomeSpec::NeedsDebugger(
                    ReportSpec {
                        execution_class: class_or_default(signal_class_spec(sig)),
                        ..empty_report(exe, cmd, os)
                    },
                ),
            ),
            None => Err(Error::NoCrashDetected),
        }
    }
}

/// Run the analysis: split the captured text, take the sanitizer path when
/// a report is present, otherwise classify by signal; a clean exit is no
/// crash and fails the whole analysis.
pub fn analyze(
    executable_path: &str,
    proc_cmdline: &str,
    os_info: &str,
    stderr_text: &str,
    signal: Option<i32>,
) -> (r: Result<Analysis, Error>)
    ensures
        ({
            let s = analyze_spec(
                stderr_text@,
                sig_view(signal),
                executable_path@,
                proc_cmdline@,
                os_info@,
            );
            match r {
                Ok(a) => s == Ok::<OutcomeSpec, Error>(a@),
                Err(e) => s == Err::<OutcomeSpec, Error>(e),
            }
        }),
{
    let lines = split_lines(stderr_text);
    let ghost dv = lines.deep_view();
    let mut report = CrashReport::new();
    report.executable_path = String::from_str(executable_path);
    report.proc_cmdline = String::from_str(proc_cmdline);
    report.os_info = String::from_str(os_info);
    match find_report_start(&lines) {
        Some(start) => {
            proof {
                assert(dv.len() == lines@.len());
                crate::text::lemma_first_pos_bounds(
                    dv.len() as int,
                    0,
                    |k: int| crate::ingest::is_report_start(dv[k]),
                );
                assert(crate::ingest::is_report_start(dv[start as int]));
                lemma_report_start_nonempty(dv[start as int]);
                lemma_report_end_lower(dv, start as int);
                lemma_report_end_upper(dv);
            }
            let end = match find_report_end(&lines) {
                Some(e) => e,
                None => {
                    return Err(Error::NoCrashDetected);
                },
            };
            let excerpt = slice_range(&lines, start, end + 1);
            match classify_excerpt(&excerpt) {
                Some(c) => {
                    report.execution_class = c;
                },
                None => {},
            }
            report.asan_report = excerpt;
            match extract_stacktrace(&report.asan_report) {
                Ok(trace) => {
                    report.stacktrace = trace;
                    Ok(Analysis::Complete(report))
                },
                Err(e) => Err(e),
            }
        },
        None => {
            match signal {
                Some(sig) => {
                    match classify_signal(sig) {
                        Some(c) => {
                            report.execution_class = c;
                        },
                        None => {},
                    }
                    Ok(Analysis::NeedsDebugger(report))
                },
                None => Err(Error::NoCrashDetected),
            }
        },
    }
}

} // verus!
