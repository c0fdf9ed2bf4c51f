use skarn::engine::{Engine, Outcome, RawOutcome, PRELUDE_JS, RUNNER_JS};
use skarn::error::Error;
use skarn::limits::ExecLimits;

#[test]
fn missing_result_is_reported_as_a_timeout() {
    let e = Engine::with_defaults();
    let err = e.accept_output(None).unwrap_err();
    assert_eq!(
        err,
        Error::CodeMode("script did not produce a result (likely timed out)".to_string())
    );
}

#[test]
fn accept_output_rejects_oversized_results() {
    let e = Engine::new(ExecLimits { max_output_bytes: 256, ..ExecLimits::default() });
    let raw = format!("\"{}\"", "x".repeat(5000));
    let err = e.accept_output(Some(raw)).expect_err("oversized output must be rejected");
    assert!(err.message().contains("byte limit"), "got: {}", err.message());
    assert_eq!(
        err.message(),
        "code-mode runtime error: script output exceeded the 1024 byte limit"
    );
}

#[test]
fn output_at_the_cap_is_accepted() {
    let e = Engine::new(ExecLimits { max_output_bytes: 10, ..ExecLimits::default() });
    let raw = "x".repeat(1024);
    assert_eq!(e.accept_output(Some(raw.clone())), Ok(raw));
    let over = "x".repeat(1025);
    assert!(e.accept_output(Some(over)).is_err());
}

#[test]
fn output_cap_counts_utf8_bytes() {
    let e = Engine::new(ExecLimits { max_output_bytes: 1024, ..ExecLimits::default() });
    let raw = "é".repeat(600);
    assert_eq!(raw.chars().count(), 600);
    assert!(e.accept_output(Some(raw)).is_err());
}

#[test]
fn isolate_source_wraps_the_script() {
    let src = Engine::isolate_source("async function __skarn_main() {\nreturn 1;\n}");
    assert_eq!(
        src,
        format!("{PRELUDE_JS}\nasync function __skarn_main() {{\nreturn 1;\n}}\n{RUNNER_JS}")
    );
    assert!(src.starts_with(PRELUDE_JS));
    assert!(src.ends_with(RUNNER_JS));
}

#[test]
fn parse_failure_names_the_problem() {
    let err = Engine::parse_failure("expected value at line 1 column 1");
    assert_eq!(
        err.message(),
        "code-mode runtime error: could not parse script result: expected value at line 1 column 1"
    );
}

fn total_value() -> serde_json::Value {
    serde_json::from_str(r#"{"a": 5, "b": 10, "total": 15}"#).unwrap()
}

#[test]
fn outcome_keeps_the_raw_record_and_counts_calls() {
    let raw = RawOutcome {
        ok: true,
        value: total_value(),
        error: None,
        logs: vec!["intermediate 5 10".to_string()],
    };
    let out = Outcome::from_raw(raw, 2);
    assert!(out.ok);
    assert_eq!(out.value, total_value());
    assert_eq!(out.tool_calls, 2, "two downstream calls were made");
    assert!(out.logs.iter().any(|l| l.contains("intermediate 5 10")));
    assert_eq!(out.failure_message(), None);
}

#[test]
fn failure_message_reports_thrown_errors() {
    let out = Outcome {
        ok: false,
        value: serde_json::Value::Null,
        error: Some("Error: boom".to_string()),
        logs: vec![],
        tool_calls: 0,
    };
    let msg = out.failure_message().unwrap();
    assert!(msg.contains("boom"));
    assert_eq!(msg, "script error: Error: boom");
    let silent = Outcome { error: None, ..out };
    assert_eq!(silent.failure_message().unwrap(), "script error: unknown");
}

#[test]
fn error_messages_carry_their_prefix() {
    assert_eq!(Error::Config("x".into()).message(), "configuration error: x");
    assert_eq!(Error::Other("plain".into()).message(), "plain");
    assert_eq!(Error::UnknownTool("t".into()).message(), "unknown tool: t");
    assert_eq!(
        Error::SandboxUnsupported("s".into()).message(),
        "sandbox unsupported on this platform: s"
    );
}
