//! The crash-report aggregate: identity and environment metadata, the
//! resolved execution class, the extracted stack trace and the raw upstream
//! excerpts, assembled in pipeline order and serialized at the boundary.

use vstd::prelude::*;

use crate::error::Error;
use crate::execution_class::{default_class, ClassSpec, ExecutionClass};
use crate::extract::{debugger_proc_maps, debugger_stacktrace, map_tail};
use crate::text::{lines_of, str_eq, vec_str_eq};

verus! {

/// One analyzed crash, as a structured, serializable record.
#[derive(Debug)]
pub struct CrashReport {
    /// Path of the executed target.
    pub executable_path: String,
    /// The target's full command line.
    pub proc_cmdline: String,
    /// Operating-system and environment metadata.
    pub os_info: String,
    /// The resolved severity class; the `UNDEFINED` class until resolved.
    pub execution_class: ExecutionClass,
    /// Raw sanitizer-report lines; empty on the signal path.
    pub asan_report: Vec<String>,
    /// The extracted stack trace, in upstream order.
    pub stacktrace: Vec<String>,
    /// Process memory-map lines; filled on the signal path only.
    pub proc_maps: Vec<String>,
    /// The resolved crash line; empty while unresolved.
    pub crashline: String,
    /// Source lines around the crash line, when resolved.
    pub source: Vec<String>,
}

/// The mathematical model of a crash report.
pub struct ReportSpec {
    pub executable_path: Seq<char>,
    pub proc_cmdline: Seq<char>,
    pub os_info: Seq<char>,
    pub execution_class: ClassSpec,
    pub asan_report: Seq<Seq<char>>,
    pub stacktrace: Seq<Seq<char>>,
    pub proc_maps: Seq<Seq<char>>,
    pub crashline: Seq<char>,
    pub source: Seq<Seq<char>>,
}

impl View for CrashReport {
    type V = ReportSpec;

    open spec fn view(&self) -> ReportSpec {
        ReportSpec {
            executable_path: self.executable_path@,
            proc_cmdline: self.proc_cmdline@,
            os_info: self.os_info@,
            execution_class: self.execution_class@,
            asan_report: self.asan_report.deep_view(),
            stacktrace: self.stacktrace.deep_view(),
            proc_maps: self.proc_maps.deep_view(),
            crashline: self.crashline@,
            source: self.source.deep_view(),
        }
    }
}

impl PartialEq for CrashReport {
    fn eq(&self, other: &Self) -> (r: bool) {
        str_eq(self.executable_path.as_str(), other.executable_path.as_str())
            && str_eq(self.proc_cmdline.as_str(), other.proc_cmdline.as_str())
            && str_eq(self.os_info.as_str(), other.os_info.as_str())
            && self.execution_class == other.execution_class
            && vec_str_eq(&self.asan_report, &other.asan_report)
            && vec_str_eq(&self.stacktrace, &other.stacktrace)
            && vec_str_eq(&self.proc_maps, &other.proc_maps)
            && str_eq(self.crashline.as_str(), other.crashline.as_str())
            && vec_str_eq(&self.source, &other.source)
    }
}

impl vstd::std_specs::cmp::PartialEqSpecImpl for CrashReport {
    open spec fn obeys_eq_spec() -> bool {
        true
    }

    open spec fn eq_spec(&self, other: &Self) -> bool {
        self@ == other@
    }
}

/// A report holding the given identity fields and nothing else: the default
/// class, and every sequence empty.
pub open spec fn empty_report(exe: Seq<char>, cmd: Seq<char>, os: Seq<char>) -> ReportSpec {
    ReportSpec {
        executable_path: exe,
        proc_cmdline: cmd,
        os_info: os,
        execution_class: default_class(),
        asan_report: Seq::empty(),
        stacktrace: Seq::empty(),
        proc_maps: Seq::empty(),
        crashline: Seq::empty(),
        source: Seq::empty(),
    }
}

impl CrashReport {
    /// An empty report: every field blank, the class at its default.
    pub fn new() -> (r: CrashReport)
        ensures
            r@ == empty_report(Seq::empty(), Seq::empty(), Seq::empty()),
    {
        let r = CrashReport {
            executable_path: String::new(),
            proc_cmdline: String::new(),
            os_info: String::new(),
            execution_class: ExecutionClass::default(),
            asan_report: Vec::new(),
            stacktrace: Vec::new(),
            proc_maps: Vec::new(),
            crashline: String::new(),
            source: Vec::new(),
        };
        proof {
            assert(r.asan_report.deep_view() =~= Seq::<Seq<char>>::empty());
            assert(r.stacktrace.deep_view() =~= Seq::<Seq<char>>::empty());
            assert(r.proc_maps.deep_view() =~= Seq::<Seq<char>>::empty());
            assert(r.source.deep_view() =~= Seq::<Seq<char>>::empty());
        }
        r
    }

    /// Store the debugger's two blobs: the backtrace verbatim, line by
    /// line, and the memory map with its four-line header discarded.
    pub fn attach_debugger_output(&mut self, bt: &str, maps: &str)
        ensures
            final(self)@ == (ReportSpec {
                stacktrace: lines_of(bt@),
                proc_maps: map_tail(lines_of(maps@)),
                ..old(self)@
            }),
    {
        self.stacktrace = debugger_stacktrace(bt);
        self.proc_maps = debugger_proc_maps(maps);
    }

    /// Record the outcome of best-effort crash-line resolution: on
    /// `None` nothing changes; otherwise the crash line is stored, and the
    /// source excerpt too when one accompanies it.
    pub fn attach_crash_line(&mut self, crashline: Option<String>, source: Option<Vec<String>>)
        ensures
            final(self)@ == (match crashline {
                None => old(self)@,
                Some(cl) => (ReportSpec {
                    crashline: cl@,
                    source: match source {
                        Some(src) => src.deep_view(),
                        None => old(self)@.source,
                    },
                    ..old(self)@
                }),
            }),
    {
        match crashline {
            None => {},
            Some(cl) => {
                self.crashline = cl;
                match source {
                    Some(src) => {
                        self.source = src;
                    },
                    None => {},
                }
            },
        }
    }
}

} // verus!
