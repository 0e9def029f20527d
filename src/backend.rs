use vstd::prelude::*;

use serde_json::Value;

use crate::error::{CallError, ErrorKind};
use crate::registry::texts;
use crate::text::joined;
use crate::json::{decode_lossy, json_document, json_member, json_text, lossy_utf8, member, parse_document, text_of};

verus! {

/// A backend that performs named operations: a warm in-process connection or
/// a helper process started for each call.
pub trait Backend {
    /// `r` is a result this backend may give for `operation` with `args`.
    spec fn gives(
        &self,
        operation: Seq<char>,
        args: Seq<Seq<char>>,
        r: Result<Value, CallError>,
    ) -> bool;

    /// Performs `operation` with the positional `args`.
    fn execute(&self, operation: &str, args: &Vec<String>) -> (r: Result<Value, CallError>)
        ensures
            self.gives(operation@, texts(args@), r),
    ;
}

/// The text of the string member `error` of the document in `stdout`, if any.
pub open spec fn reported_error(stdout: Seq<u8>) -> Option<Seq<char>> {
    match json_document(stdout) {
        Some(d) => match json_member(d, "error"@) {
            Some(e) => json_text(e),
            None => None,
        },
        None => None,
    }
}

pub open spec fn malformed_output_message() -> Seq<char> {
    "malformed backend output"@
}

/// The message of a helper process that exited with a failure status: the
/// `error` text it reported on standard output, else its standard error.
pub open spec fn failure_message(stdout: Seq<u8>, stderr: Seq<u8>) -> Seq<char> {
    match reported_error(stdout) {
        Some(m) => m,
        None => lossy_utf8(stderr),
    }
}

/// `r` is the call result owed for a finished helper process.
pub open spec fn process_result(
    succeeded: bool,
    stdout: Seq<u8>,
    stderr: Seq<u8>,
    r: Result<Value, CallError>,
) -> bool {
    if succeeded {
        match json_document(stdout) {
            Some(d) => r == Ok::<Value, CallError>(d),
            None => r matches Err(e) && e.kind == ErrorKind::Internal && e.message@
                == malformed_output_message(),
        }
    } else {
        r matches Err(e) && e.kind == ErrorKind::Backend && e.message@ == failure_message(
            stdout,
            stderr,
        )
    }
}

/// Turns a finished helper process (whether it exited with status zero, and
/// what it wrote) into the result of the call.
pub fn interpret_process_output(succeeded: bool, stdout: &[u8], stderr: &[u8]) -> (r: Result<
    Value,
    CallError,
>)
    ensures
        process_result(succeeded, stdout@, stderr@, r),
{
    if !succeeded {
        if let Some(doc) = parse_document(stdout) {
            if let Some(field) = member(&doc, "error") {
                if let Some(text) = text_of(field) {
                    return Err(CallError::new(ErrorKind::Backend, text));
                }
            }
        }
        return Err(CallError::new(ErrorKind::Backend, decode_lossy(stderr)));
    }
    match parse_document(stdout) {
        Some(doc) => Ok(doc),
        None => Err(CallError::new(ErrorKind::Internal, String::from_str("malformed backend output"))),
    }
}

/// A helper process that ran to its end: whether it exited with status zero,
/// and what it wrote.
#[derive(Debug)]
pub struct ProcessOutput {
    pub succeeded: bool,
    pub stdout: Vec<u8>,
    pub stderr: Vec<u8>,
}

/// Starts the helper process with an operation and its arguments and waits
/// for it; `Err` holds a diagnostic where it could not be started at all.
pub trait ProcessRunner {
    fn run(&self, operation: &str, args: &Vec<String>) -> Result<ProcessOutput, String>;
}

pub open spec fn spawn_failure_message(detail: Seq<char>) -> Seq<char> {
    "Failed to run calendar-cli.py: "@ + detail
}

/// `r` is the call result owed for what running the helper came to: it could
/// not be started (`Err` with its diagnostic), or it finished with `o`.
pub open spec fn run_result(out: Result<ProcessOutput, String>, r: Result<Value, CallError>) -> bool {
    match out {
        Err(d) => r matches Err(e) && e.kind == ErrorKind::Unavailable && e.message@
            == spawn_failure_message(d@),
        Ok(o) => process_result(o.succeeded, o.stdout@, o.stderr@, r),
    }
}

/// Turns what running the helper came to into the result of the call.
pub fn interpret_run(out: Result<ProcessOutput, String>) -> (r: Result<Value, CallError>)
    ensures
        run_result(out, r),
{
    match out {
        Ok(o) => interpret_process_output(o.succeeded, o.stdout.as_slice(), o.stderr.as_slice()),
        Err(detail) => {
            let msg = joined("Failed to run calendar-cli.py: ", detail.as_str());
            Err(CallError::new(ErrorKind::Unavailable, msg))
        },
    }
}

/// A backend that starts a fresh helper process for each call.
pub struct ExternalProcess<R> {
    pub runner: R,
}

impl<R: ProcessRunner> Backend for ExternalProcess<R> {
    /// The result is what some run of the helper maps to: the runner is an
    /// outside process, so which run it was is not known here.
    open spec fn gives(
        &self,
        operation: Seq<char>,
        args: Seq<Seq<char>>,
        r: Result<Value, CallError>,
    ) -> bool {
        exists|out: Result<ProcessOutput, String>| run_result(out, r)
    }

    fn execute(&self, operation: &str, args: &Vec<String>) -> (r: Result<Value, CallError>) {
        let out = self.runner.run(operation, args);
        let ghost seen = out;
        let r = interpret_run(out);
        assert(run_result(seen, r));
        r
    }
}

} // verus!
