use skarn::budget::ToolBudget;
use skarn::envelope::{answer_envelope, error_envelope, ok_envelope, ok_envelope_from};

#[test]
fn budget_lets_through_at_most_its_maximum() {
    let mut b = ToolBudget::new(3);
    let mut accepted = 0;
    let mut refused_at = None;
    for i in 0..10 {
        if b.try_reserve() {
            accepted += 1;
        } else if refused_at.is_none() {
            refused_at = Some(i);
        }
    }
    assert_eq!(accepted, 3);
    assert_eq!(refused_at, Some(3), "the 4th call trips the budget");
    assert_eq!(b.used(), 3, "rejected calls must not inflate the count");
    assert_eq!(b.max(), 3);
}

#[test]
fn zero_budget_refuses_every_call() {
    let mut b = ToolBudget::new(0);
    assert!(!b.try_reserve());
    assert!(!b.try_reserve());
    assert_eq!(b.used(), 0);
}

#[test]
fn budget_refusal_message_and_envelope() {
    let b = ToolBudget::new(256);
    assert_eq!(b.exceeded_message(), "tool-call budget of 256 exceeded");
    assert_eq!(
        b.refusal_envelope(),
        r#"{"error":"tool-call budget of 256 exceeded","ok":false}"#
    );
}

#[test]
fn ok_envelope_embeds_json_results() {
    assert_eq!(ok_envelope("42"), r#"{"ok":true,"result":42}"#);
    assert_eq!(ok_envelope(r#"{"a":[1,2]}"#), r#"{"ok":true,"result":{"a":[1,2]}}"#);
    assert_eq!(ok_envelope(" [1, 2]\n"), r#"{"ok":true,"result":[1,2]}"#);
    assert_eq!(ok_envelope("1e2"), r#"{"ok":true,"result":100.0}"#);
    let parsed: serde_json::Value = serde_json::from_str(&ok_envelope(r#"{"b": 1, "a": "x"}"#)).unwrap();
    assert_eq!(
        parsed["result"],
        serde_json::from_str::<serde_json::Value>(r#"{"a":"x","b":1}"#).unwrap()
    );
}

#[test]
fn ok_envelope_quotes_plain_text() {
    assert_eq!(ok_envelope("hello"), r#"{"ok":true,"result":"hello"}"#);
    assert_eq!(ok_envelope(""), r#"{"ok":true,"result":""}"#);
    assert_eq!(ok_envelope("{broken"), r#"{"ok":true,"result":"{broken"}"#);
}

#[test]
fn error_envelope_escapes_the_message() {
    assert_eq!(error_envelope("boom"), r#"{"error":"boom","ok":false}"#);
    assert_eq!(
        error_envelope("a\"b\\c\nd\te\u{1}f\u{8}\u{c}\r"),
        r#"{"error":"a\"b\\c\nd\te\u0001f\b\f\r","ok":false}"#
    );
    assert_eq!(error_envelope("é\u{1f}"), "{\"error\":\"é\\u001f\",\"ok\":false}");
}

#[test]
fn envelopes_parse_back_to_what_was_wrapped() {
    let msg = "line one\nline \"two\" \\ end";
    let v: serde_json::Value = serde_json::from_str(&error_envelope(msg)).unwrap();
    assert_eq!(v["ok"], serde_json::Value::Bool(false));
    assert_eq!(v["error"], serde_json::Value::String(msg.to_string()));
    let t: serde_json::Value = serde_json::from_str(&ok_envelope(msg)).unwrap();
    assert_eq!(t["ok"], serde_json::Value::Bool(true));
    assert_eq!(t["result"], serde_json::Value::String(msg.to_string()));
}

#[test]
fn answer_envelope_picks_the_envelope() {
    assert_eq!(answer_envelope(&Ok("5".to_string())), r#"{"ok":true,"result":5}"#);
    assert_eq!(
        answer_envelope(&Err("unknown tool: x".to_string())),
        r#"{"error":"unknown tool: x","ok":false}"#
    );
}

#[test]
fn ok_envelope_from_embeds_or_quotes() {
    assert_eq!(ok_envelope_from("not json", None), r#"{"ok":true,"result":"not json"}"#);
    assert_eq!(ok_envelope_from(" 7 ", Some("7".to_string())), r#"{"ok":true,"result":7}"#);
}

#[test]
fn error_envelope_round_trips_awkward_messages() {
    for msg in ["", "\"", "\\", "\u{0}\u{1f}\u{7f}", "tab\tnew\nline", "snow ☃ and 𝄞"] {
        let v: serde_json::Value = serde_json::from_str(&error_envelope(msg)).unwrap();
        assert_eq!(v["error"], serde_json::Value::String(msg.to_string()));
        assert_eq!(v["ok"], serde_json::Value::Bool(false));
    }
}
