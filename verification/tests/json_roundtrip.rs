use casr_triage::execution_class::ExecutionClass;
use casr_triage::report::CrashReport;

fn sample_report() -> CrashReport {
    let mut r = CrashReport::new();
    r.executable_path = "./target".to_string();
    r.proc_cmdline = "./target input".to_string();
    r.os_info = "linux x86_64".to_string();
    r.execution_class =
        ExecutionClass::san_find("heap-buffer-overflow", Some("WRITE"), false).unwrap();
    r.asan_report = vec![
        "==1234==ERROR: AddressSanitizer: heap-buffer-overflow".to_string(),
        "WRITE of size 4".to_string(),
    ];
    r.stacktrace = vec!["#0 0x401b8d in foo()".to_string(), "#1 0x401c3a in main".to_string()];
    r.crashline = "/src/foo.c:12".to_string();
    r.source = vec!["12: x = *p;".to_string()];
    r
}

#[test]
fn round_trip_full_report() {
    // Serializing then deserializing yields field-for-field equality.
    let r = sample_report();
    let text = r.to_json();
    let back = CrashReport::from_json(&text).unwrap();
    assert_eq!(back, r);
}

#[test]
fn round_trip_empty_report() {
    // Empty sequences stay empty after the round trip: present as empty
    // arrays, never absent.
    let r = CrashReport::new();
    let text = r.to_json();
    assert!(text.contains("\"AsanReport\": []"));
    assert!(text.contains("\"Stacktrace\": []"));
    assert!(text.contains("\"ProcMaps\": []"));
    assert!(text.contains("\"Source\": []"));
    let back = CrashReport::from_json(&text).unwrap();
    assert_eq!(back, r);
    assert!(back.asan_report.is_empty());
    assert!(back.stacktrace.is_empty());
    assert!(back.proc_maps.is_empty());
    assert!(back.source.is_empty());
}

#[test]
fn round_trip_escaped_characters() {
    let mut r = CrashReport::new();
    r.executable_path = "a\"quoted\"\\path\nwith\tcontrols\r".to_string();
    r.proc_cmdline = "\\\\".to_string();
    r.stacktrace = vec!["line with \"quotes\"".to_string(), "tab\there".to_string()];
    let text = r.to_json();
    let back = CrashReport::from_json(&text).unwrap();
    assert_eq!(back, r);
}

#[test]
fn serialized_form_is_json_with_stable_field_names() {
    let r = sample_report();
    let text = r.to_json();
    let v: serde_json::Value = serde_json::from_str(&text).unwrap();
    assert_eq!(v["ExecutablePath"], "./target");
    assert_eq!(v["ProcCmdline"], "./target input");
    assert_eq!(v["OsInfo"], "linux x86_64");
    assert_eq!(v["CrashSeverity"]["Type"], "EXPLOITABLE");
    assert_eq!(v["CrashSeverity"]["ShortDescription"], "heap-buffer-overflow(write)");
    assert_eq!(v["AsanReport"].as_array().unwrap().len(), 2);
    assert_eq!(v["Stacktrace"][0], "#0 0x401b8d in foo()");
    assert_eq!(v["ProcMaps"].as_array().unwrap().len(), 0);
    assert_eq!(v["CrashLine"], "/src/foo.c:12");
    assert_eq!(v["Source"][0], "12: x = *p;");
}

#[test]
fn serialized_escapes_match_json() {
    let mut r = CrashReport::new();
    r.executable_path = "a\"b\\c\nd\te\rf".to_string();
    let text = r.to_json();
    let v: serde_json::Value = serde_json::from_str(&text).unwrap();
    assert_eq!(v["ExecutablePath"], "a\"b\\c\nd\te\rf");
}

#[test]
fn non_canonical_text_is_rejected() {
    assert!(CrashReport::from_json("").is_none());
    assert!(CrashReport::from_json("{}").is_none());
    assert!(CrashReport::from_json("not json at all").is_none());
    let r = sample_report();
    let text = r.to_json();
    // Truncated text no longer parses.
    assert!(CrashReport::from_json(&text[..text.len() - 1]).is_none());
}
