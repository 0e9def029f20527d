use fgp_calendar::backend::{interpret_process_output, interpret_run, ProcessOutput};
use fgp_calendar::error::{CallError, ErrorKind};
use fgp_calendar::schema::ParamType;
use fgp_calendar::text::{decimal_string, parse_whole};
use fgp_calendar::service::{CalendarService, ServiceState};
use fgp_calendar::validate::validate;
use fgp_calendar::value::{CallParams, ParamValue};
use serde_json::Value;

fn service() -> CalendarService {
    CalendarService::new("/srv/cli.py".to_string(), true).unwrap()
}

fn strings(v: &[&str]) -> Vec<String> {
    v.iter().map(|s| s.to_string()).collect()
}

fn text(s: &str) -> ParamValue {
    ParamValue::Text(s.to_string())
}

#[test]
fn qualified_and_bare_names_resolve_alike() {
    let s = service();
    let a = s.plan("calendar.today", &CallParams::new()).unwrap();
    let b = s.plan("today", &CallParams::new()).unwrap();
    assert_eq!(a.command_line(), strings(&["today"]));
    assert_eq!(a.command_line(), b.command_line());
}

#[test]
fn mistyped_parameter_is_invalid() {
    let s = service();
    let mut p = CallParams::new();
    p.insert("days".to_string(), text("seven"));
    let e = s.plan("upcoming", &p).unwrap_err();
    assert_eq!(e.kind, ErrorKind::InvalidParams);
    assert_eq!(e.message, "invalid parameter days: expected integer");
    let mut p = CallParams::new();
    p.insert("query".to_string(), ParamValue::Unsigned(4));
    let e = s.plan("search", &p).unwrap_err();
    assert_eq!(e.message, "invalid parameter query: expected string");
    let mut p = CallParams::new();
    p.insert("duration_minutes".to_string(), ParamValue::Other);
    let e = s.plan("free_slots", &p).unwrap_err();
    assert_eq!(e.kind, ErrorKind::InvalidParams);
}

#[test]
fn create_arguments_with_and_without_description() {
    let s = service();
    let mut p = CallParams::new();
    p.insert("summary".to_string(), text("Lunch"));
    p.insert("start".to_string(), text("2024-01-01T12:00"));
    p.insert("end".to_string(), text("2024-01-01T13:00"));
    let inv = s.plan("create", &p).unwrap();
    assert_eq!(inv.operation, "create");
    assert_eq!(inv.args, strings(&["Lunch", "2024-01-01T12:00", "2024-01-01T13:00"]));
    p.insert("description".to_string(), text("with team"));
    let inv = s.plan("calendar.create", &p).unwrap();
    assert_eq!(
        inv.command_line(),
        strings(&["create", "Lunch", "2024-01-01T12:00", "2024-01-01T13:00", "--description", "with team"])
    );
}

#[test]
fn free_slots_and_search_arguments() {
    let s = service();
    let mut p = CallParams::new();
    p.insert("duration_minutes".to_string(), ParamValue::Unsigned(30));
    let inv = s.plan("free_slots", &p).unwrap();
    assert_eq!(inv.command_line(), strings(&["free-slots", "--duration", "30", "--days", "7"]));
    let mut p = CallParams::new();
    p.insert("query".to_string(), text("dentist"));
    p.insert("days".to_string(), ParamValue::Unsigned(18446744073709551615));
    let inv = s.plan("search", &p).unwrap();
    assert_eq!(inv.command_line(), strings(&["search", "dentist", "--days", "18446744073709551615"]));
}

#[test]
fn undeclared_parameters_pass_through() {
    let s = service();
    let list = s.method_list();
    let mut p = CallParams::new();
    p.insert("verbose".to_string(), ParamValue::Bool(true));
    p.insert("days".to_string(), ParamValue::Unsigned(0));
    let out = validate(&list[1].params, &p).unwrap();
    let names: Vec<String> = out.entries().iter().map(|e| e.0.clone()).collect();
    assert_eq!(names, strings(&["days", "limit", "verbose"]));
    assert!(matches!(out.get("verbose"), Some(ParamValue::Bool(true))));
    assert!(matches!(out.get("limit"), Some(ParamValue::Unsigned(20))));
    assert!(matches!(out.get("days"), Some(ParamValue::Unsigned(0))));
    assert_eq!(p.len(), 2);
}

#[test]
fn insert_replaces_existing_name() {
    let mut p = CallParams::new();
    p.insert("days".to_string(), ParamValue::Unsigned(1));
    p.insert("days".to_string(), ParamValue::Unsigned(2));
    assert_eq!(p.len(), 1);
    assert!(matches!(p.get("days"), Some(ParamValue::Unsigned(2))));
    assert!(p.get("limit").is_none());
}

#[test]
fn method_list_describes_all_methods() {
    let list = service().method_list();
    let names: Vec<String> = list.iter().map(|m| m.name.clone()).collect();
    assert_eq!(
        names,
        strings(&["calendar.today", "calendar.upcoming", "calendar.search", "calendar.create", "calendar.free_slots"])
    );
    assert_eq!(list[2].params[0].name, "query");
    assert!(list[2].params[0].required);
    assert_eq!(list[2].params[0].param_type, ParamType::Text);
    assert_eq!(list[2].params[0].param_type.name(), "string");
    assert!(matches!(list[2].params[1].default, Some(ParamValue::Unsigned(30))));
    assert_eq!(list[3].params.len(), 4);
}

#[test]
fn failing_process_without_error_field_reports_stderr() {
    let e = interpret_process_output(false, b"[1,2]", b"boom\n").unwrap_err();
    assert_eq!(e.kind, ErrorKind::Backend);
    assert_eq!(e.message, "boom\n");
    let e = interpret_process_output(false, br#"{"error":42}"#, b"bad").unwrap_err();
    assert_eq!(e.message, "bad");
    let e = interpret_process_output(false, b"garbage", b"\xffx").unwrap_err();
    assert_eq!(e.message, "\u{fffd}x");
}

#[test]
fn succeeding_process_output_is_the_result() {
    let v = interpret_process_output(true, br#"{"events":[{"id":"a"}]}"#, b"").unwrap();
    let expected: Value = serde_json::from_str(r#"{"events":[{"id":"a"}]}"#).unwrap();
    assert_eq!(v, expected);
    let v = interpret_process_output(true, br#"{"error":"x"}"#, b"").unwrap();
    assert_eq!(v.get("error").and_then(|e| e.as_str()), Some("x"));
}

#[test]
fn missing_helper_is_unavailable() {
    let e = CalendarService::new("/nowhere/cli.py".to_string(), false).unwrap_err();
    assert_eq!(e.kind, ErrorKind::Unavailable);
    assert_eq!(e.message, "Calendar CLI not found at: /nowhere/cli.py\nEnsure calendar-cli.py is installed.");
    assert_eq!(
        e.describe(),
        "backend unavailable: Calendar CLI not found at: /nowhere/cli.py Ensure calendar-cli.py is installed."
    );
}

#[test]
fn startup_needs_the_interpreter() {
    let s = service();
    assert!(s.on_start(Some(true)).is_ok());
    assert_eq!(s.on_start(None).unwrap_err().message, "Python3 not found");
    let e = s.on_start(Some(false)).unwrap_err();
    assert_eq!(e.kind, ErrorKind::Unavailable);
    assert_eq!(e.message, "Python3 not available");
    assert_eq!(s.name(), "calendar");
    assert_eq!(s.version(), "1.0.0");
    assert_eq!(s.cli_path(), "/srv/cli.py");
}

#[test]
fn service_states() {
    assert_eq!(ServiceState::Uninitialized.after_start(true), ServiceState::Serving);
    assert_eq!(ServiceState::Uninitialized.after_start(false), ServiceState::Uninitialized);
    assert_eq!(ServiceState::Serving.after_probe(false), ServiceState::Degraded);
    assert_eq!(ServiceState::Degraded.after_probe(true), ServiceState::Serving);
    assert_eq!(ServiceState::Uninitialized.after_probe(true), ServiceState::Uninitialized);
}

#[test]
fn error_descriptions_by_kind() {
    let d = |k: ErrorKind| CallError::new(k, "m".to_string()).describe();
    assert_eq!(d(ErrorKind::InvalidParams), "bad request: m");
    assert_eq!(d(ErrorKind::NotFound), "not found: m");
    assert_eq!(d(ErrorKind::Unavailable), "backend unavailable: m");
    assert_eq!(d(ErrorKind::Backend), "backend error: m");
    assert_eq!(d(ErrorKind::Internal), "internal error: m");
}

#[test]
fn description_is_one_line() {
    let e = CallError::new(ErrorKind::Backend, "boom\nline two\r\n".to_string());
    assert_eq!(e.describe(), "backend error: boom line two  ");
}

#[test]
fn integer_parameters_accept_decimal_strings() {
    let s = service();
    let mut p = CallParams::new();
    p.insert("days".to_string(), text("14"));
    p.insert("limit".to_string(), text("007"));
    let inv = s.plan("upcoming", &p).unwrap();
    assert_eq!(inv.command_line(), strings(&["upcoming", "--days", "14", "--limit", "7"]));
    for bad in ["", " 7", "-1", "7.5", "18446744073709551616", "1e3"] {
        let mut p = CallParams::new();
        p.insert("days".to_string(), text(bad));
        let e = s.plan("upcoming", &p).unwrap_err();
        assert_eq!(e.kind, ErrorKind::InvalidParams);
        assert_eq!(e.message, "invalid parameter days: expected integer");
    }
}

#[test]
fn whole_numbers_read_and_written() {
    assert_eq!(parse_whole("0"), Some(0));
    assert_eq!(parse_whole("18446744073709551615"), Some(u64::MAX));
    assert_eq!(parse_whole("18446744073709551616"), None);
    assert_eq!(parse_whole("12a"), None);
    assert_eq!(parse_whole(""), None);
    assert_eq!(decimal_string(0), "0");
    assert_eq!(decimal_string(1200), "1200");
    assert_eq!(decimal_string(u64::MAX), "18446744073709551615");
}

#[test]
fn run_outcomes_map_to_call_results() {
    let e = interpret_run(Err("permission denied".to_string())).unwrap_err();
    assert_eq!(e.kind, ErrorKind::Unavailable);
    assert_eq!(e.message, "Failed to run calendar-cli.py: permission denied");
    let out = ProcessOutput { succeeded: false, stdout: br#"{"error":"quota"}"#.to_vec(), stderr: Vec::new() };
    let e = interpret_run(Ok(out)).unwrap_err();
    assert_eq!(e.kind, ErrorKind::Backend);
    assert_eq!(e.message, "quota");
    let out = ProcessOutput { succeeded: true, stdout: b"[]".to_vec(), stderr: Vec::new() };
    assert_eq!(interpret_run(Ok(out)).unwrap(), Value::Array(Vec::new()));
}
