use casr_triage::error::Error;
use casr_triage::pipeline::{analyze, classify_signal, Analysis};

fn asan_write_stderr() -> String {
    [
        "random target noise",
        "==1234==ERROR: AddressSanitizer: heap-buffer-overflow on address 0x602000000054",
        "WRITE of size 4 at 0x602000000054 thread T0",
        "    #0 0x401b8d in foo()",
        "    #1 0x401c3a in main",
        "",
        "SUMMARY: AddressSanitizer: heap-buffer-overflow /src/foo.c:12 in foo()",
    ]
    .join("\n")
}

#[test]
fn sanitizer_path_classifies_and_extracts() {
    let stderr = asan_write_stderr();
    let outcome = analyze("./target", "./target input", "linux", &stderr, None).unwrap();
    let report = match outcome {
        Analysis::Complete(r) => r,
        Analysis::NeedsDebugger(_) => panic!("sanitizer path expected"),
    };
    assert_eq!(report.execution_class.short_description, "heap-buffer-overflow(write)");
    assert_eq!(report.execution_class.severity, "EXPLOITABLE");
    assert!(!report.stacktrace.is_empty());
    assert_eq!(report.stacktrace[0], "#0 0x401b8d in foo()");
    // The excerpt runs from the marker line through the last non-empty line.
    assert_eq!(
        report.asan_report[0],
        "==1234==ERROR: AddressSanitizer: heap-buffer-overflow on address 0x602000000054"
    );
    assert_eq!(
        report.asan_report.last().unwrap(),
        "SUMMARY: AddressSanitizer: heap-buffer-overflow /src/foo.c:12 in foo()"
    );
    assert_eq!(report.executable_path, "./target");
    assert_eq!(report.proc_cmdline, "./target input");
    assert!(report.proc_maps.is_empty());
    assert_eq!(report.crashline, "");
}

#[test]
fn sanitizer_path_ignores_signal() {
    let stderr = asan_write_stderr();
    let outcome = analyze("./t", "./t", "linux", &stderr, Some(6)).unwrap();
    assert!(matches!(outcome, Analysis::Complete(_)));
}

#[test]
fn leak_sanitizer_classifies_memory_leaks() {
    let stderr = [
        "==99==ERROR: LeakSanitizer: detected memory leaks",
        "Direct leak of 24 byte(s) in 1 object(s) allocated from:",
        "    #0 0x7f3 in malloc",
        "    #1 0x401 in main",
        "",
        "SUMMARY: AddressSanitizer: 24 byte(s) leaked in 1 allocation(s).",
    ]
    .join("\n");
    let outcome = analyze("./t", "./t", "linux", &stderr, None).unwrap();
    let report = match outcome {
        Analysis::Complete(r) => r,
        Analysis::NeedsDebugger(_) => panic!("sanitizer path expected"),
    };
    assert_eq!(report.execution_class.short_description, "memory-leaks");
}

#[test]
fn libfuzzer_summary_takes_no_qualifier() {
    let stderr = [
        "==77== ERROR: libFuzzer: deadly signal",
        "WRITE of size 1",
        "    #0 0x5 in handler",
        "",
        "SUMMARY: libFuzzer: deadly signal",
    ]
    .join("\n");
    let outcome = analyze("./t", "./t", "linux", &stderr, None).unwrap();
    let report = match outcome {
        Analysis::Complete(r) => r,
        Analysis::NeedsDebugger(_) => panic!("sanitizer path expected"),
    };
    // `deadly` resolves to AbortSignal; the WRITE token plays no part.
    assert_eq!(report.execution_class.short_description, "AbortSignal");
}

#[test]
fn missing_stack_trace_is_fatal() {
    let stderr = "==12==ERROR: AddressSanitizer: SEGV on unknown address";
    let err = analyze("./t", "./t", "linux", stderr, None).unwrap_err();
    assert!(matches!(err, Error::StackTraceNotFound));
}

#[test]
fn signal_path_derives_segv_class() {
    // No sanitizer marker anywhere: fall back to the termination signal.
    let stderr = "Segmentation fault (core dumped)";
    let outcome = analyze("./t", "./t input", "linux", stderr, Some(11)).unwrap();
    let mut report = match outcome {
        Analysis::NeedsDebugger(r) => r,
        Analysis::Complete(_) => panic!("signal path expected"),
    };
    assert_eq!(report.execution_class.short_description, "AccessViolation");
    assert_eq!(report.execution_class.severity, "NOT_EXPLOITABLE");
    assert!(report.stacktrace.is_empty());
    // The debugger's blobs complete the report.
    let bt = "#0  0x0000 in main ()\n#1  0x0004 in _start ()";
    let maps = "h1\nh2\nh3\nh4\n0x1000-0x2000 r-xp target";
    report.attach_debugger_output(bt, maps);
    assert_eq!(report.stacktrace, vec!["#0  0x0000 in main ()", "#1  0x0004 in _start ()"]);
    assert_eq!(report.proc_maps, vec!["0x1000-0x2000 r-xp target"]);
}

#[test]
fn signal_classification_table() {
    assert_eq!(classify_signal(4).unwrap().short_description, "BadInstruction");
    assert_eq!(classify_signal(6).unwrap().short_description, "AbortSignal");
    assert_eq!(classify_signal(11).unwrap().short_description, "AccessViolation");
    assert!(classify_signal(15).is_none());
}

#[test]
fn unknown_signal_keeps_default_class() {
    let outcome = analyze("./t", "./t", "linux", "noise", Some(15)).unwrap();
    let report = match outcome {
        Analysis::NeedsDebugger(r) => r,
        Analysis::Complete(_) => panic!("signal path expected"),
    };
    assert_eq!(report.execution_class.short_description, "Undefined");
    assert_eq!(report.execution_class.severity, "UNDEFINED");
}

#[test]
fn clean_exit_is_no_crash() {
    // No signal and no sanitizer report: the analysis fails as a whole.
    let err = analyze("./t", "./t", "linux", "ran fine\n", None).unwrap_err();
    assert!(matches!(err, Error::NoCrashDetected));
    assert_eq!(err.message(), "Program terminated (no crash)");
}

#[test]
fn crash_line_attachment_is_best_effort() {
    let outcome = analyze("./t", "./t", "linux", "noise", Some(11)).unwrap();
    let mut report = match outcome {
        Analysis::NeedsDebugger(r) => r,
        Analysis::Complete(_) => panic!("signal path expected"),
    };
    // Unresolved: both fields stay empty.
    report.attach_crash_line(None, None);
    assert_eq!(report.crashline, "");
    assert!(report.source.is_empty());
    // Resolved with a source excerpt: both are stored.
    report.attach_crash_line(
        Some("/src/foo.c:12".to_string()),
        Some(vec!["11: int x;".to_string(), "12: x = *p;".to_string()]),
    );
    assert_eq!(report.crashline, "/src/foo.c:12");
    assert_eq!(report.source, vec!["11: int x;", "12: x = *p;"]);
}
