use casr_triage::error::Error;
use casr_triage::extract::{debugger_proc_maps, debugger_stacktrace, extract_stacktrace};
use casr_triage::ingest::{find_access, line_is_report_start, parse_summary_line};
use casr_triage::text::{split_lines, trim_str};

#[test]
fn split_lines_keeps_every_segment() {
    assert_eq!(split_lines("a\nb\nc"), vec!["a", "b", "c"]);
    assert_eq!(split_lines("a\nb\n"), vec!["a", "b", ""]);
    assert_eq!(split_lines(""), vec![""]);
    assert_eq!(split_lines("\n"), vec!["", ""]);
}

#[test]
fn trim_removes_surrounding_whitespace() {
    assert_eq!(trim_str("  \t #0 0x4 in foo \r\n"), "#0 0x4 in foo");
    assert_eq!(trim_str("x"), "x");
    assert_eq!(trim_str("   "), "");
    assert_eq!(trim_str(""), "");
}

#[test]
fn report_start_marker_recognized() {
    assert!(line_is_report_start(
        "==1234==ERROR: AddressSanitizer: heap-buffer-overflow on address 0x60"
    ));
    assert!(line_is_report_start("==99== ERROR: LeakSanitizer: detected memory leaks"));
    assert!(line_is_report_start("==1234== ERROR: libFuzzer: deadly signal"));
    assert!(line_is_report_start("prefix ==1234==ERROR: AddressSanitizer: SEGV"));
}

#[test]
fn report_start_marker_rejected() {
    // A process id needs at least two digits.
    assert!(!line_is_report_start("==1==ERROR: AddressSanitizer: SEGV"));
    assert!(!line_is_report_start("====ERROR: AddressSanitizer: SEGV"));
    assert!(!line_is_report_start("==12==ERROR: SomethingElse: SEGV"));
    assert!(!line_is_report_start("==12==AddressSanitizer: SEGV"));
    assert!(!line_is_report_start("plain crash output"));
}

#[test]
fn summary_line_parsing() {
    let r = parse_summary_line("SUMMARY: AddressSanitizer: heap-use-after-free /x.c:3 in f");
    let (fz, check) = r.unwrap();
    assert!(!fz);
    assert_eq!(check, "heap-use-after-free");
    let r = parse_summary_line("SUMMARY:   libFuzzer: deadly signal");
    let (fz, check) = r.unwrap();
    assert!(fz);
    assert_eq!(check, "deadly");
    assert!(parse_summary_line("SUMMARY: MemorySanitizer: x").is_none());
    assert!(parse_summary_line("no summary here").is_none());
}

#[test]
fn access_token_found() {
    assert_eq!(find_access("WRITE of size 4 at 0x60 thread T0"), Some("WRITE"));
    assert_eq!(find_access("READ of size 8"), Some("READ"));
    assert_eq!(find_access("unknown ACCESS here"), Some("ACCESS"));
    assert_eq!(find_access("nothing of note"), None);
}

#[test]
fn stacktrace_extracted_and_trimmed() {
    let report: Vec<String> = vec![
        "==12==ERROR: AddressSanitizer: SEGV".to_string(),
        "  READ of size 4".to_string(),
        "    #0 0x401b8d in foo()".to_string(),
        "    #1 0x401c3a in main".to_string(),
        "".to_string(),
        "SUMMARY: AddressSanitizer: SEGV".to_string(),
    ];
    let trace = extract_stacktrace(&report).unwrap();
    assert_eq!(trace, vec!["#0 0x401b8d in foo()", "#1 0x401c3a in main"]);
}

#[test]
fn stacktrace_missing_frame_zero() {
    let report: Vec<String> = vec!["==12==ERROR: AddressSanitizer: SEGV".to_string()];
    let err = extract_stacktrace(&report).unwrap_err();
    assert!(matches!(err, Error::StackTraceNotFound));
    assert_eq!(err.message(), "Couldn't find stack trace in sanitizer's report");
}

#[test]
fn stacktrace_missing_end() {
    let report: Vec<String> = vec![
        "==12==ERROR: AddressSanitizer: SEGV".to_string(),
        "    #0 0x401b8d in foo()".to_string(),
        "SUMMARY: AddressSanitizer: SEGV".to_string(),
    ];
    let err = extract_stacktrace(&report).unwrap_err();
    assert!(matches!(err, Error::StackTraceEndNotFound));
    assert_eq!(err.message(), "Couldn't find stack trace end in sanitizer's report");
}

#[test]
fn debugger_stacktrace_is_verbatim() {
    let bt = "#0  0x0000 in main ()\n#1  0x0004 in _start ()";
    assert_eq!(
        debugger_stacktrace(bt),
        vec!["#0  0x0000 in main ()", "#1  0x0004 in _start ()"]
    );
}

#[test]
fn proc_maps_drop_exactly_four_header_lines() {
    // Whatever the first four lines hold, they are discarded.
    let maps = "h1\nh2\nh3\nh4\n0x1000-0x2000 r-xp target\n0x3000-0x4000 rw-p heap";
    assert_eq!(
        debugger_proc_maps(maps),
        vec!["0x1000-0x2000 r-xp target", "0x3000-0x4000 rw-p heap"]
    );
    let maps = "0xaaa mapping one\n0xbbb mapping two\nh3\nh4\nkept";
    assert_eq!(debugger_proc_maps(maps), vec!["kept"]);
}

#[test]
fn proc_maps_short_output_is_empty() {
    assert!(debugger_proc_maps("one\ntwo").is_empty());
    assert!(debugger_proc_maps("a\nb\nc\nd").is_empty());
    assert!(debugger_proc_maps("").is_empty());
}
