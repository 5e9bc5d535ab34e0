//! Tests of response extraction, payload validation, and instruction decoding.

use plant_care::DiagnosisAction;
use plant_care::DiagnosisStatus;
use plant_care::DiagnosisError;
use plant_care::JsonValue;
use plant_care::SandboxExecutor;

fn s(text: &str) -> String {
    text.to_string()
}

fn string_value(text: &str) -> JsonValue {
    JsonValue::String(s(text))
}

fn obj(pairs: Vec<(&str, JsonValue)>) -> JsonValue {
    JsonValue::Object(pairs.into_iter().map(|(k, v)| (s(k), v)).collect())
}

#[test]
fn test_parse_json_response() {
    let executor = SandboxExecutor::new();

    let json_str = r#"{"action": "ASK_USER", "payload": {"question": "Test?"}}"#;
    let result = executor.parse_ai_response(json_str).unwrap();

    assert_eq!(
        result.get_field("action"),
        Some(&string_value("ASK_USER"))
    );
}

#[test]
fn test_parse_markdown_wrapped_json() {
    let executor = SandboxExecutor::new();

    let markdown = r#"
Here's the action:
```json
{"action": "CONCLUDE", "payload": {"finding": "Test", "recommendation": "Do this"}}
```
"#;
    let result = executor.parse_ai_response(markdown).unwrap();

    assert_eq!(
        result.get_field("action"),
        Some(&string_value("CONCLUDE"))
    );
}

#[test]
fn test_validate_ask_user_payload() {
    let executor = SandboxExecutor::new();
    let payload = obj(vec![("question", string_value("How often do you water?"))]);

    let result = executor.validate_payload(&DiagnosisAction::AskUser, &payload);
    assert!(result.is_ok());
}

#[test]
fn test_validate_conclude_payload() {
    let executor = SandboxExecutor::new();
    let payload = obj(vec![
        ("finding", string_value("Root rot")),
        ("recommendation", string_value("Reduce watering")),
    ]);

    let result = executor.validate_payload(&DiagnosisAction::Conclude, &payload);
    assert!(result.is_ok());
}

#[test]
fn extraction_agrees_across_wrappings() {
    let executor = SandboxExecutor::new();
    let bare = r#"{"action":"ASK_USER","payload":{"question":"How much light?"}}"#;
    let tagged = format!("```json\n{}\n```", bare);
    let generic = format!("```\n{}\n```", bare);

    let from_bare = executor.parse_ai_response(bare).unwrap();
    let from_tagged = executor.parse_ai_response(&tagged).unwrap();
    let from_generic = executor.parse_ai_response(&generic).unwrap();

    assert_eq!(from_bare, from_tagged);
    assert_eq!(from_bare, from_generic);
}

#[test]
fn extraction_finds_embedded_object() {
    let executor = SandboxExecutor::new();
    let text = r#"The model says {"action":"GET_PLANT_VITALS","payload":{}} and nothing else."#;
    let result = executor.parse_ai_response(text).unwrap();
    assert_eq!(
        result.get_field("action"),
        Some(&string_value("GET_PLANT_VITALS"))
    );
}

#[test]
fn extraction_fails_on_plain_prose() {
    let executor = SandboxExecutor::new();
    let text = "I am sorry, I cannot help with that.";
    match executor.parse_ai_response(text) {
        Err(DiagnosisError::ParseFailure(raw)) => assert_eq!(raw, text),
        other => panic!("expected a parse failure, got {:?}", other),
    }
}

#[test]
fn extraction_fails_on_reversed_braces() {
    let executor = SandboxExecutor::new();
    let text = "} mismatched {";
    assert!(matches!(
        executor.parse_ai_response(text),
        Err(DiagnosisError::ParseFailure(_))
    ));
}

#[test]
fn extraction_fails_on_unparsable_fence() {
    let executor = SandboxExecutor::new();
    let text = "```json\nnot json at all\n```";
    assert!(matches!(
        executor.parse_ai_response(text),
        Err(DiagnosisError::ParseFailure(_))
    ));
}

#[test]
fn extraction_converts_every_value_kind() {
    let executor = SandboxExecutor::new();
    let text = r#"{"n": null, "b": true, "num": 7, "s": "x", "a": [1, 2]}"#;
    let result = executor.parse_ai_response(text).unwrap();
    assert_eq!(result.get_field("n"), Some(&JsonValue::Null));
    assert_eq!(result.get_field("b"), Some(&JsonValue::Bool(true)));
    assert_eq!(result.get_field("num"), Some(&JsonValue::Number(s("7"))));
    assert_eq!(result.get_field("s"), Some(&string_value("x")));
    assert_eq!(
        result.get_field("a"),
        Some(&JsonValue::Array(vec![
            JsonValue::Number(s("1")),
            JsonValue::Number(s("2")),
        ]))
    );
    assert_eq!(result.get_field("missing"), None);
}

#[test]
fn valid_instructions_decode_for_all_four_actions() {
    let executor = SandboxExecutor::new();
    let cases = vec![
        (
            r#"{"action":"GET_PLANT_VITALS","payload":{}}"#,
            DiagnosisAction::GetPlantVitals,
        ),
        (
            r#"{"action":"LOG_STATE","payload":{"hypothesis":"sun scorch"}}"#,
            DiagnosisAction::LogState,
        ),
        (
            r#"{"action":"ASK_USER","payload":{"question":"How much light?"}}"#,
            DiagnosisAction::AskUser,
        ),
        (
            r#"{"action":"CONCLUDE","payload":{"finding":"Sun Scorch","recommendation":"Move it"}}"#,
            DiagnosisAction::Conclude,
        ),
    ];
    for (text, expected) in cases {
        let decoded = executor.execute_code(text, &JsonValue::Null).unwrap();
        assert_eq!(decoded.action, expected);
    }
}

#[test]
fn removing_required_fields_fails_validation() {
    let executor = SandboxExecutor::new();

    // ASK_USER without its question.
    let no_question = obj(vec![("topic", string_value("light"))]);
    assert_eq!(
        executor.validate_payload(&DiagnosisAction::AskUser, &no_question),
        Err(DiagnosisError::InvalidPayload)
    );

    // An empty question is as bad as a missing one.
    let empty_question = obj(vec![("question", string_value(""))]);
    assert_eq!(
        executor.validate_payload(&DiagnosisAction::AskUser, &empty_question),
        Err(DiagnosisError::InvalidPayload)
    );

    // CONCLUDE without either required field.
    let no_finding = obj(vec![("recommendation", string_value("Water less"))]);
    assert_eq!(
        executor.validate_payload(&DiagnosisAction::Conclude, &no_finding),
        Err(DiagnosisError::InvalidPayload)
    );
    let no_recommendation = obj(vec![("finding", string_value("Root rot"))]);
    assert_eq!(
        executor.validate_payload(&DiagnosisAction::Conclude, &no_recommendation),
        Err(DiagnosisError::InvalidPayload)
    );

    // LOG_STATE with an empty mapping.
    let empty_state = obj(vec![]);
    assert_eq!(
        executor.validate_payload(&DiagnosisAction::LogState, &empty_state),
        Err(DiagnosisError::InvalidPayload)
    );

    // GET_PLANT_VITALS accepts an empty payload.
    assert!(executor
        .validate_payload(&DiagnosisAction::GetPlantVitals, &obj(vec![]))
        .is_ok());
}

#[test]
fn decoding_reports_each_failure_kind() {
    let executor = SandboxExecutor::new();

    // Unknown action name.
    match executor.execute_code(r#"{"action":"SING","payload":{}}"#, &JsonValue::Null) {
        Err(DiagnosisError::InvalidAction(Some(name))) => assert_eq!(name, "SING"),
        other => panic!("expected an unknown-action failure, got {:?}", other),
    }

    // Missing action name.
    assert_eq!(
        executor.execute_code(r#"{"payload":{}}"#, &JsonValue::Null).err(),
        Some(DiagnosisError::InvalidAction(None))
    );

    // Non-string action name.
    assert_eq!(
        executor.execute_code(r#"{"action":3,"payload":{}}"#, &JsonValue::Null).err(),
        Some(DiagnosisError::InvalidAction(None))
    );

    // Absent payload.
    assert_eq!(
        executor.execute_code(r#"{"action":"ASK_USER"}"#, &JsonValue::Null).err(),
        Some(DiagnosisError::MissingPayload)
    );

    // Null payload.
    assert_eq!(
        executor.execute_code(r#"{"action":"ASK_USER","payload":null}"#, &JsonValue::Null).err(),
        Some(DiagnosisError::MissingPayload)
    );

    // Ill-shaped payload.
    assert_eq!(
        executor.execute_code(r#"{"action":"LOG_STATE","payload":{}}"#, &JsonValue::Null).err(),
        Some(DiagnosisError::InvalidPayload)
    );

    // Unparsable text.
    assert!(matches!(
        executor.execute_code("no structure here", &JsonValue::Null),
        Err(DiagnosisError::ParseFailure(_))
    ));
}

#[test]
fn status_and_action_names_round_trip() {
    for status in [
        DiagnosisStatus::PendingUserInput,
        DiagnosisStatus::Completed,
        DiagnosisStatus::Cancelled,
    ] {
        assert_eq!(DiagnosisStatus::from_str(status.as_str()), Some(status));
    }
    assert_eq!(DiagnosisStatus::from_str("GROWING"), None);
    assert_eq!(DiagnosisStatus::as_str(&DiagnosisStatus::Completed), "COMPLETED");

    assert_eq!(
        DiagnosisAction::from_str("GET_PLANT_VITALS"),
        Some(DiagnosisAction::GetPlantVitals)
    );
    assert_eq!(DiagnosisAction::from_str("LOG_STATE"), Some(DiagnosisAction::LogState));
    assert_eq!(DiagnosisAction::from_str("ASK_USER"), Some(DiagnosisAction::AskUser));
    assert_eq!(DiagnosisAction::from_str("CONCLUDE"), Some(DiagnosisAction::Conclude));
    assert_eq!(DiagnosisAction::from_str("ask_user"), None);
}
