use casr_triage::error::Error;
use casr_triage::execution_class::{classes, ExecutionClass};

#[test]
fn find_every_table_name() {
    // Every short name present verbatim in the table resolves to the exact
    // matching record, and repeated calls return equal records.
    let table = classes();
    for class in &table {
        let found = ExecutionClass::find(&class.short_description).unwrap();
        assert_eq!(&found, class);
        let again = ExecutionClass::find(&class.short_description).unwrap();
        assert_eq!(found, again);
    }
}

#[test]
fn table_shape() {
    let table = classes();
    assert_eq!(table.len(), 71);
    // Short names are unique across the whole table.
    for i in 0..table.len() {
        for j in 0..i {
            assert_ne!(table[i].short_description, table[j].short_description);
        }
    }
}

#[test]
fn find_unknown_name() {
    let err = ExecutionClass::find("no-such-class").unwrap_err();
    match err {
        Error::ClassNotFound(name) => assert_eq!(name, "no-such-class"),
        _ => panic!("wrong error kind"),
    }
    assert_eq!(
        ExecutionClass::find("no-such-class").unwrap_err().message(),
        "Couldn't find class no-such-class by name."
    );
}

#[test]
fn derive_segv_write_near_null() {
    let c = ExecutionClass::san_find("SEGV", Some("WRITE"), true).unwrap();
    assert_eq!(c.short_description, "DestAvNearNull");
    assert_eq!(c.severity, "PROBABLY_EXPLOITABLE");
}

#[test]
fn derive_segv_read_not_near_null() {
    let c = ExecutionClass::san_find("SEGV", Some("READ"), false).unwrap();
    assert_eq!(c.short_description, "SourceAv");
    assert_eq!(c.severity, "NOT_EXPLOITABLE");
}

#[test]
fn derive_segv_undefined_access() {
    let c = ExecutionClass::san_find("SEGV", None, false).unwrap();
    assert_eq!(c.short_description, "AccessViolation");
    let c = ExecutionClass::san_find("SEGV", Some("ACCESS"), false).unwrap();
    assert_eq!(c.short_description, "AccessViolation");
    let c = ExecutionClass::san_find("SEGV", Some("WRITE"), false).unwrap();
    assert_eq!(c.short_description, "DestAv");
    let c = ExecutionClass::san_find("SEGV", Some("READ"), true).unwrap();
    assert_eq!(c.short_description, "SourceAvNearNull");
}

#[test]
fn derive_qualified_variant() {
    let c = ExecutionClass::san_find("heap-buffer-overflow", Some("WRITE"), false).unwrap();
    assert_eq!(c.short_description, "heap-buffer-overflow(write)");
    assert_eq!(c.severity, "EXPLOITABLE");
    let c = ExecutionClass::san_find("heap-buffer-overflow", Some("READ"), true).unwrap();
    assert_eq!(c.short_description, "heap-buffer-overflow(read)");
    assert_eq!(c.severity, "NOT_EXPLOITABLE");
}

#[test]
fn derive_bare_when_access_unknown() {
    // No qualifier suffix is attempted when no access direction is known.
    let c = ExecutionClass::san_find("heap-buffer-overflow", None, false).unwrap();
    assert_eq!(c.short_description, "heap-buffer-overflow");
    assert_eq!(c.severity, "PROBABLY_EXPLOITABLE");
    let c = ExecutionClass::san_find("heap-buffer-overflow", Some("ACCESS"), false).unwrap();
    assert_eq!(c.short_description, "heap-buffer-overflow");
}

#[test]
fn derive_falls_back_to_bare_name() {
    // A class without qualified variants resolves to the bare name even
    // when an access direction is known.
    let c = ExecutionClass::san_find("double-free", Some("WRITE"), false).unwrap();
    assert_eq!(c.short_description, "double-free");
}

#[test]
fn derive_stack_overflow_and_deadly() {
    let c = ExecutionClass::san_find("stack-overflow", None, false).unwrap();
    assert_eq!(c.short_description, "StackOverflow");
    let c = ExecutionClass::san_find("stack-overflow", Some("WRITE"), true).unwrap();
    assert_eq!(c.short_description, "StackOverflow");
    let c = ExecutionClass::san_find("deadly", None, false).unwrap();
    assert_eq!(c.short_description, "AbortSignal");
    let c = ExecutionClass::san_find("deadly", Some("READ"), true).unwrap();
    assert_eq!(c.short_description, "AbortSignal");
}

#[test]
fn derive_unknown_name_fails() {
    let err = ExecutionClass::san_find("not-a-check", None, false).unwrap_err();
    assert!(matches!(err, Error::ClassNotFound(_)));
}

#[test]
fn default_class_is_undefined() {
    // The default is the taxonomy table's own Undefined record, field
    // for field.
    let c = ExecutionClass::default();
    assert_eq!(c.severity, "UNDEFINED");
    assert_eq!(c.short_description, "Undefined");
    assert_eq!(c.description, "Undefined class");
    assert_eq!(c.explanation, "There is no execution class for this type of exception.");
    assert_eq!(c, ExecutionClass::find("Undefined").unwrap());
}

#[test]
fn new_builds_from_tuple() {
    let c = ExecutionClass::new(("EXPLOITABLE", "X", "desc", "expl"));
    assert_eq!(c.severity, "EXPLOITABLE");
    assert_eq!(c.short_description, "X");
    assert_eq!(c.description, "desc");
    assert_eq!(c.explanation, "expl");
}

#[test]
fn display_text_formats() {
    let c = ExecutionClass::new(("EXPLOITABLE", "X", "desc", "expl"));
    assert_eq!(
        c.display_text(),
        "Severity: EXPLOITABLE\nShort description: X\nDescription: desc\nExplanation: expl"
    );
    let c = ExecutionClass::new(("EXPLOITABLE", "X", "desc", ""));
    assert_eq!(
        c.display_text(),
        "Severity: EXPLOITABLE\nShort description: X\nDescription: desc"
    );
}
