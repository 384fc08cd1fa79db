//! Failure kinds of the triage pipeline.

use vstd::prelude::*;

verus! {

/// What went wrong. `ClassNotFound` is recoverable: callers keep the default
/// class. The stack-trace errors and `NoCrashDetected` abort the analysis.
#[derive(Debug, Clone)]
pub enum Error {
    /// No taxonomy entry matches the looked-up name (the payload).
    ClassNotFound(String),
    /// The sanitizer report holds no frame-zero marker.
    StackTraceNotFound,
    /// No empty line terminates the stack trace inside the report.
    StackTraceEndNotFound,
    /// The target exited cleanly: no signal and no sanitizer report.
    NoCrashDetected,
}

impl Error {
    /// A human-readable description of the failure.
    pub fn message(&self) -> (r: String)
        ensures
            r@ == match self {
                Error::ClassNotFound(n) => "Couldn't find class "@ + n@ + " by name."@,
                Error::StackTraceNotFound =>
                    "Couldn't find stack trace in sanitizer's report"@,
                Error::StackTraceEndNotFound =>
                    "Couldn't find stack trace end in sanitizer's report"@,
                Error::NoCrashDetected => "Program terminated (no crash)"@,
            },
    {
        match self {
            Error::ClassNotFound(n) => {
                let mut m = String::from_str("Couldn't find class ");
                m.append(n.as_str());
                m.append(" by name.");
                m
            },
            Error::StackTraceNotFound => String::from_str(
                "Couldn't find stack trace in sanitizer's report",
            ),
            Error::StackTraceEndNotFound => String::from_str(
                "Couldn't find stack trace end in sanitizer's report",
            ),
            Error::NoCrashDetected => String::from_str("Program terminated (no crash)"),
        }
    }
}

} // verus!
