use std::cell::Cell;

use fgp_calendar::backend::{ExternalProcess, ProcessOutput, ProcessRunner};
use fgp_calendar::error::{CallError, ErrorKind};
use fgp_calendar::service::CalendarService;
use fgp_calendar::value::{CallParams, ParamValue};
use fgp_calendar::warm::{Connection, WarmConnection};
use serde_json::Value;

fn service() -> CalendarService {
    CalendarService::new("/opt/calendar/calendar-cli.py".to_string(), true).unwrap()
}

fn params(entries: Vec<(&str, ParamValue)>) -> CallParams {
    let mut p = CallParams::new();
    for (k, v) in entries {
        p.insert(k.to_string(), v);
    }
    p
}

fn text(s: &str) -> ParamValue {
    ParamValue::Text(s.to_string())
}

/// A connection that records each call and answers with a fixed result.
struct Recorder {
    calls: Vec<Vec<String>>,
    answer: Value,
}

impl Connection for Recorder {
    fn call(&mut self, operation: &str, args: &Vec<String>) -> Result<Value, CallError> {
        let mut line = vec![operation.to_string()];
        line.extend(args.iter().cloned());
        self.calls.push(line);
        Ok(self.answer.clone())
    }
}

fn recorder(answer: Value) -> WarmConnection<Recorder> {
    WarmConnection::new(Recorder { calls: Vec::new(), answer })
}

/// Stands for a helper process that exits with a given status and output.
struct FinishedProcess {
    succeeded: bool,
    stdout: Vec<u8>,
    stderr: Vec<u8>,
}

impl ProcessRunner for FinishedProcess {
    fn run(&self, _operation: &str, _args: &Vec<String>) -> Result<ProcessOutput, String> {
        Ok(ProcessOutput { succeeded: self.succeeded, stdout: self.stdout.clone(), stderr: self.stderr.clone() })
    }
}

/// Stands for a helper that cannot be started.
struct MissingInterpreter;

impl ProcessRunner for MissingInterpreter {
    fn run(&self, _operation: &str, _args: &Vec<String>) -> Result<ProcessOutput, String> {
        Err("No such file or directory".to_string())
    }
}

fn strings(v: &[&str]) -> Vec<String> {
    v.iter().map(|s| s.to_string()).collect()
}

#[test]
fn unknown_method_is_not_found_and_backend_untouched() {
    let s = service();
    let backend = recorder(Value::Null);
    for name in ["nope", "calendar.nope", "", "Today", "calendar."] {
        let r = s.dispatch(&backend, name, &CallParams::new());
        let e = r.unwrap_err();
        assert_eq!(e.kind, ErrorKind::NotFound);
        assert_eq!(e.message, format!("Unknown method: {}", name));
    }
    assert_eq!(backend.into_inner().calls.len(), 0);
}

#[test]
fn missing_required_is_invalid_and_backend_untouched() {
    let s = service();
    let backend = recorder(Value::Null);
    let e = s.dispatch(&backend, "create", &params(vec![("summary", text("x")), ("end", text("y"))])).unwrap_err();
    assert_eq!(e.kind, ErrorKind::InvalidParams);
    assert!(e.message.contains("start"));
    let e = s.dispatch(&backend, "free_slots", &CallParams::new()).unwrap_err();
    assert_eq!(e.kind, ErrorKind::InvalidParams);
    assert!(e.message.contains("duration_minutes"));
    assert_eq!(backend.into_inner().calls.len(), 0);
}

#[test]
fn default_equals_explicit_value() {
    let s = service();
    let implicit = s.plan("upcoming", &params(vec![("days", ParamValue::Unsigned(3))])).unwrap();
    let explicit = s
        .plan("upcoming", &params(vec![("days", ParamValue::Unsigned(3)), ("limit", ParamValue::Unsigned(20))]))
        .unwrap();
    assert_eq!(implicit.command_line(), explicit.command_line());
    let implicit = s.plan("search", &params(vec![("query", text("lunch"))])).unwrap();
    let explicit = s.plan("search", &params(vec![("query", text("lunch")), ("days", ParamValue::Unsigned(30))])).unwrap();
    assert_eq!(implicit.command_line(), explicit.command_line());
}

#[test]
fn health_with_missing_helper_reports_not_ok() {
    let s = service();
    let report = s.health_check(false);
    assert_eq!(report.len(), 1);
    assert_eq!(report[0].0, "calendar_cli");
    assert!(!report[0].1.ok);
    let message = report[0].1.message.clone().unwrap();
    assert!(!message.is_empty());
    assert_eq!(message, "calendar-cli.py not found");
    let report = s.health_check(true);
    assert!(report[0].1.ok);
    assert_eq!(report[0].1.message.clone().unwrap(), "CLI at /opt/calendar/calendar-cli.py");
}

/// A handle that notices when a call enters while another is in flight.
struct CountingHandle {
    count: u64,
    in_flight: Cell<bool>,
    overlapped: bool,
}

impl Connection for CountingHandle {
    fn call(&mut self, _operation: &str, _args: &Vec<String>) -> Result<Value, CallError> {
        if self.in_flight.get() {
            self.overlapped = true;
        }
        self.in_flight.set(true);
        self.count += 1;
        self.in_flight.set(false);
        Ok(Value::from(self.count))
    }
}

#[test]
fn warm_connection_admits_one_call_at_a_time() {
    let s = service();
    let warm = WarmConnection::new(CountingHandle { count: 0, in_flight: Cell::new(false), overlapped: false });
    let n: u64 = 25;
    for _ in 0..n {
        s.dispatch(&warm, "today", &CallParams::new()).unwrap();
    }
    let handle = warm.into_inner();
    assert_eq!(handle.count, n);
    assert!(!handle.overlapped);
}

/// A warm handle that answers every call with a fixed document.
struct StubClient {
    answer: Value,
    seen: Vec<Vec<String>>,
}

impl Connection for StubClient {
    fn call(&mut self, operation: &str, args: &Vec<String>) -> Result<Value, CallError> {
        let mut line = vec![operation.to_string()];
        line.extend(args.iter().cloned());
        self.seen.push(line);
        Ok(self.answer.clone())
    }
}

#[test]
fn today_through_warm_connection() {
    let s = service();
    let answer: Value = serde_json::from_str(r#"[{"summary":"standup"}]"#).unwrap();
    let warm = WarmConnection::new(StubClient { answer: answer.clone(), seen: Vec::new() });
    let r = s.dispatch(&warm, "today", &CallParams::new()).unwrap();
    assert_eq!(r, answer);
    let client = warm.into_inner();
    assert_eq!(client.seen, vec![strings(&["today"])]);
}

#[test]
fn upcoming_fills_default_limit() {
    let s = service();
    let inv = s.plan("upcoming", &params(vec![("days", ParamValue::Unsigned(7))])).unwrap();
    assert_eq!(inv.command_line(), strings(&["upcoming", "--days", "7", "--limit", "20"]));
    let backend = recorder(Value::Bool(true));
    s.dispatch(&backend, "upcoming", &params(vec![("days", ParamValue::Unsigned(7))])).unwrap();
    assert_eq!(backend.into_inner().calls, vec![strings(&["upcoming", "--days", "7", "--limit", "20"])]);
}

#[test]
fn search_without_query_is_invalid() {
    let s = service();
    let backend = recorder(Value::Null);
    let e = s.dispatch(&backend, "search", &CallParams::new()).unwrap_err();
    assert_eq!(e.kind, ErrorKind::InvalidParams);
    assert!(e.message.contains("query"));
    assert_eq!(e.message, "missing required parameter: query");
    assert_eq!(backend.into_inner().calls.len(), 0);
}

#[test]
fn process_failure_reports_error_field() {
    let s = service();
    let backend = ExternalProcess {
        runner: FinishedProcess {
            succeeded: false,
            stdout: br#"{"error":"rate limited"}"#.to_vec(),
            stderr: b"Traceback".to_vec(),
        },
    };
    let e = s.dispatch(&backend, "today", &CallParams::new()).unwrap_err();
    assert_eq!(e.kind, ErrorKind::Backend);
    assert_eq!(e.message, "rate limited");
    assert_eq!(e.describe(), "backend error: rate limited");
}

#[test]
fn process_success_with_malformed_output_is_internal() {
    let s = service();
    let backend = ExternalProcess {
        runner: FinishedProcess { succeeded: true, stdout: b"not json {".to_vec(), stderr: Vec::new() },
    };
    let e = s.dispatch(&backend, "today", &CallParams::new()).unwrap_err();
    assert_eq!(e.kind, ErrorKind::Internal);
    assert_eq!(e.message, "malformed backend output");
}

#[test]
fn helper_that_cannot_start_is_unavailable() {
    let s = service();
    let backend = ExternalProcess { runner: MissingInterpreter };
    let e = s.dispatch(&backend, "today", &CallParams::new()).unwrap_err();
    assert_eq!(e.kind, ErrorKind::Unavailable);
    assert_eq!(e.message, "Failed to run calendar-cli.py: No such file or directory");
}

#[test]
fn helper_success_is_the_call_result() {
    let s = service();
    let backend = ExternalProcess {
        runner: FinishedProcess { succeeded: true, stdout: br#"[{"summary":"standup"}]"#.to_vec(), stderr: Vec::new() },
    };
    let r = s.dispatch(&backend, "calendar.today", &CallParams::new()).unwrap();
    let expected: Value = serde_json::from_str(r#"[{"summary":"standup"}]"#).unwrap();
    assert_eq!(r, expected);
}
