//! End-to-end tests of the diagnostic cycle engine against stubbed AI replies.

use plant_care::engine;
use plant_care::schedule::parse_care_schedule;
use plant_care::ActionEffect;
use plant_care::CareSchedule;
use plant_care::DiagnosisError;
use plant_care::DiagnosisResponseDto;
use plant_care::DiagnosisStatus;
use plant_care::Plant;
use plant_care::Role;

const USER: &str = "local-user";
const NOW: i64 = 1_700_000_000_000;

fn a_plant() -> Plant {
    Plant::new(
        USER.to_string(),
        "Monstera deliciosa".to_string(),
        CareSchedule::default(),
    )
}

#[test]
fn scenario_start_yields_awaiting_user() {
    let plant = a_plant();
    let mut session =
        engine::start_diagnosis(Some(&plant), USER, "leaves yellowing".to_string()).unwrap();

    assert_eq!(session.plant_id, plant.id);
    assert_eq!(session.status, DiagnosisStatus::PendingUserInput);
    assert_eq!(session.diagnosis_context.initial_prompt, "leaves yellowing");
    assert_eq!(session.diagnosis_context.conversation_history.len(), 1);
    assert_eq!(session.diagnosis_context.conversation_history[0].role, Role::User);
    assert_eq!(
        session.diagnosis_context.conversation_history[0].message,
        "leaves yellowing"
    );
    let vitals = session.diagnosis_context.plant_vitals.as_ref().unwrap();
    assert_eq!(vitals.name, "Monstera deliciosa");

    let replies = vec![
        r#"{"action":"ASK_USER","payload":{"question":"How much light?"}}"#.to_string(),
    ];
    let response =
        engine::run_diagnosis_cycle(&mut session, Some(&plant), USER, &replies, NOW).unwrap();

    match response {
        DiagnosisResponseDto::Ask(ask) => {
            assert_eq!(ask.question, "How much light?");
            assert_eq!(ask.diagnosis_id, session.id);
        }
        other => panic!("expected a question, got {:?}", other),
    }
    assert_eq!(session.status, DiagnosisStatus::PendingUserInput);
    assert_eq!(session.diagnosis_context.conversation_history.len(), 2);
    assert_eq!(
        session.diagnosis_context.conversation_history[1].role,
        Role::Assistant
    );
    assert_eq!(
        session.diagnosis_context.conversation_history[1].message,
        "How much light?"
    );
}

#[test]
fn scenario_update_yields_conclusion() {
    let plant = a_plant();
    let mut session =
        engine::start_diagnosis(Some(&plant), USER, "leaves yellowing".to_string()).unwrap();
    let ask = vec![
        r#"{"action":"ASK_USER","payload":{"question":"How much light?"}}"#.to_string(),
    ];
    engine::run_diagnosis_cycle(&mut session, Some(&plant), USER, &ask, NOW).unwrap();

    engine::update_diagnosis(
        &mut session,
        Some(&plant),
        USER,
        "bright indirect".to_string(),
    )
    .unwrap();
    assert_eq!(session.diagnosis_context.conversation_history.len(), 3);
    assert_eq!(session.diagnosis_context.conversation_history[2].role, Role::User);
    assert_eq!(
        session.diagnosis_context.conversation_history[2].message,
        "bright indirect"
    );

    let conclude = vec![
        r#"{"action":"CONCLUDE","payload":{"finding":"Sun Scorch","recommendation":"Move to indirect light"}}"#
            .to_string(),
    ];
    let response =
        engine::run_diagnosis_cycle(&mut session, Some(&plant), USER, &conclude, NOW).unwrap();

    match response {
        DiagnosisResponseDto::Conclude(c) => {
            assert_eq!(c.finding, "Sun Scorch");
            assert_eq!(c.recommendation, "Move to indirect light");
            assert_eq!(c.diagnosis_id, session.id);
        }
        other => panic!("expected a conclusion, got {:?}", other),
    }
    assert_eq!(session.status, DiagnosisStatus::Completed);
    let result = session.diagnosis_context.result.as_ref().unwrap();
    assert_eq!(result.finding, "Sun Scorch");
    assert_eq!(result.recommendation, "Move to indirect light");
}

#[test]
fn scenario_fenced_reply_extracts_like_a_bare_one() {
    let plant = a_plant();
    let mut session =
        engine::start_diagnosis(Some(&plant), USER, "leaves yellowing".to_string()).unwrap();
    let replies = vec![
        "```json\n{\"action\":\"ASK_USER\",\"payload\":{\"question\":\"How much light?\"}}\n```"
            .to_string(),
    ];
    let response =
        engine::run_diagnosis_cycle(&mut session, Some(&plant), USER, &replies, NOW).unwrap();
    match response {
        DiagnosisResponseDto::Ask(ask) => assert_eq!(ask.question, "How much light?"),
        other => panic!("expected a question, got {:?}", other),
    }
    assert_eq!(session.status, DiagnosisStatus::PendingUserInput);
}

#[test]
fn scenario_prose_reply_fails_and_leaves_session_alone() {
    let plant = a_plant();
    let mut session =
        engine::start_diagnosis(Some(&plant), USER, "leaves yellowing".to_string()).unwrap();
    let updated_at_before = session.updated_at;
    let state_before = session.diagnosis_context.state.len();
    let history_before = session.diagnosis_context.conversation_history.len();

    let replies = vec!["The plant is probably just sad.".to_string()];
    let outcome = engine::run_diagnosis_cycle(&mut session, Some(&plant), USER, &replies, NOW);

    match outcome {
        Err(DiagnosisError::ParseFailure(raw)) => {
            assert_eq!(raw, "The plant is probably just sad.");
        }
        other => panic!("expected a parse failure, got {:?}", other),
    }
    assert_eq!(session.updated_at, updated_at_before);
    assert_eq!(session.diagnosis_context.state.len(), state_before);
    assert_eq!(
        session.diagnosis_context.conversation_history.len(),
        history_before
    );
    assert_eq!(session.status, DiagnosisStatus::PendingUserInput);
}

#[test]
fn log_state_cycles_merge_and_overwrite_state() {
    let plant = a_plant();
    let mut session =
        engine::start_diagnosis(Some(&plant), USER, "brown spots".to_string()).unwrap();
    let replies = vec![
        r#"{"action":"LOG_STATE","payload":{"hypothesis":"fungus","confidence":0.4}}"#.to_string(),
        r#"{"action":"LOG_STATE","payload":{"confidence":0.8}}"#.to_string(),
        r#"{"action":"ASK_USER","payload":{"question":"Any webbing?"}}"#.to_string(),
    ];
    let response =
        engine::run_diagnosis_cycle(&mut session, Some(&plant), USER, &replies, NOW).unwrap();
    assert!(matches!(response, DiagnosisResponseDto::Ask(_)));

    let state = &session.diagnosis_context.state;
    assert_eq!(state.len(), 2);
    assert_eq!(state[0].0, "confidence");
    assert_eq!(state[0].1, plant_care::JsonValue::Number("0.8".to_string()));
    assert_eq!(state[1].0, "hypothesis");
    assert_eq!(state[1].1, plant_care::JsonValue::String("fungus".to_string()));
    assert_eq!(session.updated_at, NOW);
}

#[test]
fn get_plant_vitals_cycle_refreshes_the_snapshot() {
    let plant = a_plant();
    let mut session =
        engine::start_diagnosis(Some(&plant), USER, "droopy".to_string()).unwrap();
    session.diagnosis_context.plant_vitals = None;

    let replies = vec![
        r#"{"action":"GET_PLANT_VITALS","payload":{}}"#.to_string(),
        r#"{"action":"ASK_USER","payload":{"question":"How often do you water?"}}"#.to_string(),
    ];
    engine::run_diagnosis_cycle(&mut session, Some(&plant), USER, &replies, NOW).unwrap();
    let vitals = session.diagnosis_context.plant_vitals.as_ref().unwrap();
    assert_eq!(vitals.name, "Monstera deliciosa");
}

#[test]
fn update_on_completed_session_is_invalid_state() {
    let plant = a_plant();
    let mut session =
        engine::start_diagnosis(Some(&plant), USER, "leaves yellowing".to_string()).unwrap();
    let conclude = vec![
        r#"{"action":"CONCLUDE","payload":{"finding":"Sun Scorch","recommendation":"Shade it"}}"#
            .to_string(),
    ];
    engine::run_diagnosis_cycle(&mut session, Some(&plant), USER, &conclude, NOW).unwrap();
    assert_eq!(session.status, DiagnosisStatus::Completed);

    let history_before = session.diagnosis_context.conversation_history.len();
    let updated_at_before = session.updated_at;
    let outcome =
        engine::update_diagnosis(&mut session, Some(&plant), USER, "anything".to_string());
    assert_eq!(outcome, Err(DiagnosisError::InvalidState));
    assert_eq!(
        session.diagnosis_context.conversation_history.len(),
        history_before
    );
    assert_eq!(session.updated_at, updated_at_before);
    assert_eq!(session.status, DiagnosisStatus::Completed);

    assert_eq!(
        engine::check_update_allowed(Some(&session), Some(&plant), USER),
        Err(DiagnosisError::InvalidState)
    );
}

#[test]
fn missing_lookups_surface_not_found_and_unauthorized() {
    let plant = a_plant();

    assert_eq!(
        engine::start_diagnosis(None, USER, "wilting".to_string()).err(),
        Some(DiagnosisError::NotFound)
    );

    let mut session =
        engine::start_diagnosis(Some(&plant), USER, "wilting".to_string()).unwrap();

    assert_eq!(
        engine::check_update_allowed(None, Some(&plant), USER),
        Err(DiagnosisError::NotFound)
    );
    assert_eq!(
        engine::update_diagnosis(&mut session, None, USER, "hello".to_string()),
        Err(DiagnosisError::Unauthorized)
    );
    assert_eq!(
        engine::update_diagnosis(&mut session, Some(&plant), "someone-else", "hi".to_string()),
        Err(DiagnosisError::Unauthorized)
    );

    // A plant record that is not the session's plant is refused too.
    let other_plant = a_plant();
    assert_eq!(
        engine::update_diagnosis(&mut session, Some(&other_plant), USER, "hi".to_string()),
        Err(DiagnosisError::Unauthorized)
    );
}

#[test]
fn exhausted_replies_are_an_upstream_error() {
    let plant = a_plant();
    let mut session =
        engine::start_diagnosis(Some(&plant), USER, "pale leaves".to_string()).unwrap();
    let replies: Vec<String> = vec![];
    assert_eq!(
        engine::run_diagnosis_cycle(&mut session, Some(&plant), USER, &replies, NOW),
        Err(DiagnosisError::UpstreamError)
    );

    let only_logging =
        vec![r#"{"action":"LOG_STATE","payload":{"note":"thinking"}}"#.to_string()];
    assert_eq!(
        engine::run_diagnosis_cycle(&mut session, Some(&plant), USER, &only_logging, NOW),
        Err(DiagnosisError::UpstreamError)
    );
}

#[test]
fn cycle_step_applies_one_instruction() {
    let plant = a_plant();
    let mut session =
        engine::start_diagnosis(Some(&plant), USER, "spots".to_string()).unwrap();
    let effect = engine::run_cycle_step(
        &mut session,
        r#"{"action":"ASK_USER","payload":{"question":"Indoors or outdoors?"}}"#,
        NOW,
    )
    .unwrap();
    assert_eq!(effect, ActionEffect::AskUser("Indoors or outdoors?".to_string()));
    assert_eq!(session.diagnosis_context.conversation_history.len(), 2);
    assert_eq!(session.updated_at, NOW);
}

#[test]
fn session_invariant_is_decidable() {
    let plant = a_plant();
    let session = engine::start_diagnosis(Some(&plant), USER, "x".to_string()).unwrap();
    assert!(session.is_well_formed());

    let mut broken = engine::start_diagnosis(Some(&plant), USER, "x".to_string()).unwrap();
    broken.status = DiagnosisStatus::Completed;
    assert!(!broken.is_well_formed());
}

#[test]
fn care_schedule_parses_from_fenced_and_bare_replies() {
    let bare = r#"{"light":"Bright","water":"Weekly","humidity":"High","temperature":"20C","care_instructions":"Mist often"}"#;
    let schedule = parse_care_schedule(bare).unwrap();
    assert_eq!(schedule.light, "Bright");
    assert_eq!(schedule.water, "Weekly");
    assert_eq!(schedule.humidity, "High");
    assert_eq!(schedule.temperature, "20C");
    assert_eq!(schedule.care_instructions, "Mist often");

    let fenced = format!("```json\n{}\n```", bare);
    assert_eq!(parse_care_schedule(&fenced).unwrap(), schedule);

    // A reply missing a field describes no schedule.
    let missing = r#"{"light":"Bright","water":"Weekly","humidity":"High","temperature":"20C"}"#;
    assert!(parse_care_schedule(missing).is_none());
    assert!(parse_care_schedule("no schedule here").is_none());
}

#[test]
fn default_care_schedule_matches_the_documented_fallback() {
    let schedule = CareSchedule::default();
    assert_eq!(schedule.light, "Bright, indirect sunlight");
    assert_eq!(schedule.water, "Water when top inch of soil is dry");
    assert_eq!(schedule.humidity, "Moderate humidity (40-60%)");
    assert_eq!(schedule.temperature, "18-24°C (65-75°F)");
    assert_eq!(schedule.care_instructions, "");
}

#[test]
fn new_entities_are_freshly_stamped() {
    let plant = a_plant();
    assert_eq!(plant.id.len(), 36);
    assert_eq!(plant.user_id, USER);
    assert!(plant.image_url.is_none());
    assert_eq!(plant.created_at, plant.updated_at);

    let other = a_plant();
    assert_ne!(plant.id, other.id);

    let session = plant_care::DiagnosisSession::new("p1".to_string(), "help".to_string());
    assert_eq!(session.id.len(), 36);
    assert_eq!(session.plant_id, "p1");
    assert_eq!(session.status, DiagnosisStatus::PendingUserInput);
    assert!(session.diagnosis_context.plant_vitals.is_none());
    assert!(session.diagnosis_context.result.is_none());
    assert!(session.diagnosis_context.state.is_empty());
}
