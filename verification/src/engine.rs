//! The diagnostic cycle engine: the state machine that drives one diagnosis
//! conversation.
//!
//! Every decision the engine makes is a pure function from session state and
//! an event (a plant lookup result, the user's answer, the AI's raw reply) to
//! the next session state and an action. The caller performs the outside work
//! between steps — asking the AI client for a completion and persisting the
//! session — and hands the results back in.

use vstd::prelude::*;

use crate::dto::DiagnosisAskResponse;
use crate::dto::DiagnosisConcludeResponse;
use crate::dto::DiagnosisResponseDto;
use crate::enums::DiagnosisAction;
use crate::enums::DiagnosisStatus;
use crate::errors::DiagnosisError;
use crate::executor::decode_error_matches;
use crate::executor::decode_spec;
use crate::executor::ActionEffect;
use crate::executor::SandboxExecutor;
use crate::json::spec_merge;
use crate::json::JsonValue;
use crate::plant::Plant;
use crate::session::ChatTurn;
use crate::session::DiagnosisResult;
use crate::session::DiagnosisSession;
use crate::session::PlantVitals;
use crate::session::Role;
use crate::text::str_eq;

verus! {

/// The most cycle steps one `start`/`update` call may run before giving up,
/// so that a model that never asks or concludes cannot cycle forever.
pub const MAX_CYCLE_STEPS: usize = 16;

/// The caller owns this plant record.
pub open spec fn owns_plant(plant: Option<&Plant>, user_id: Seq<char>) -> bool {
    plant matches Some(p) && p.user_id@ == user_id
}

/// The plant lookup result is the session's own plant and belongs to the
/// caller: what a GET_PLANT_VITALS step needs to succeed.
pub open spec fn plant_matches(plant: Option<&Plant>, plant_id: Seq<char>, user_id: Seq<char>) -> bool {
    plant matches Some(p) && p.user_id@ == user_id && p.id@ == plant_id
}

/// The error an update of this session fails with before any mutation, if
/// any: the plant must exist, belong to the caller and to the session, and
/// the session must still be awaiting user input.
pub open spec fn update_guard(
    session: &DiagnosisSession,
    plant: Option<&Plant>,
    user_id: Seq<char>,
) -> Option<DiagnosisError> {
    if !(plant matches Some(p) && p.id@ == session.plant_id@ && p.user_id@ == user_id) {
        Some(DiagnosisError::Unauthorized)
    } else if !(session.status matches DiagnosisStatus::PendingUserInput) {
        Some(DiagnosisError::InvalidState)
    } else {
        None
    }
}

/// Open a diagnosis session for the caller's plant: fail `NotFound` when the
/// plant lookup came back empty or the plant is not the caller's; else seed a
/// fresh session with the problem description and the plant's vitals.
pub fn start_diagnosis(plant: Option<&Plant>, user_id: &str, prompt: String) -> (r: Result<
    DiagnosisSession,
    DiagnosisError,
>)
    ensures
        match r {
            Ok(s) => {
                &&& owns_plant(plant, user_id@)
                &&& plant matches Some(p) && s.plant_id == p.id
                    && s.diagnosis_context.plant_vitals == Some(
                    (PlantVitals { name: p.name, care_schedule: p.care_schedule }),
                )
                &&& s.status matches DiagnosisStatus::PendingUserInput
                &&& s.diagnosis_context.initial_prompt == prompt
                &&& s.diagnosis_context.conversation_history@ == seq![
                    (ChatTurn { role: Role::User, message: prompt }),
                ]
                &&& s.diagnosis_context.state@ == Seq::<(String, JsonValue)>::empty()
                &&& s.diagnosis_context.result is None
                &&& s.created_at == s.updated_at
                &&& s.inv()
            },
            Err(e) => e == DiagnosisError::NotFound && !owns_plant(plant, user_id@),
        },
{
    let p = match plant {
        Some(p) => p,
        None => {
            return Err(DiagnosisError::NotFound);
        },
    };
    if !str_eq(p.user_id.as_str(), user_id) {
        return Err(DiagnosisError::NotFound);
    }
    let mut session = DiagnosisSession::new(p.id.clone(), prompt);
    session.diagnosis_context.plant_vitals = Some(
        PlantVitals { name: p.name.clone(), care_schedule: p.care_schedule.clone() },
    );
    Ok(session)
}

/// Decide whether an update may proceed on these lookup results: `NotFound`
/// for a missing session, else whatever the update guard refuses.
pub fn check_update_allowed(
    session: Option<&DiagnosisSession>,
    plant: Option<&Plant>,
    user_id: &str,
) -> (r: Result<(), DiagnosisError>)
    ensures
        match session {
            None => r == Err::<(), DiagnosisError>(DiagnosisError::NotFound),
            Some(s) => match update_guard(s, plant, user_id@) {
                Some(e) => r == Err::<(), DiagnosisError>(e),
                None => r is Ok,
            },
        },
{
    let s = match session {
        Some(s) => s,
        None => {
            return Err(DiagnosisError::NotFound);
        },
    };
    let p = match plant {
        Some(p) => p,
        None => {
            return Err(DiagnosisError::Unauthorized);
        },
    };
    if !str_eq(p.id.as_str(), s.plant_id.as_str()) {
        return Err(DiagnosisError::Unauthorized);
    }
    if !str_eq(p.user_id.as_str(), user_id) {
        return Err(DiagnosisError::Unauthorized);
    }
    match s.status {
        DiagnosisStatus::PendingUserInput => Ok(()),
        _ => Err(DiagnosisError::InvalidState),
    }
}

/// Decide whether the caller may read or delete this session: `NotFound` for
/// a missing session, `Unauthorized` when the plant lookup shows the session
/// is not the caller's.
pub fn check_session_access(
    session: Option<&DiagnosisSession>,
    plant: Option<&Plant>,
    user_id: &str,
) -> (r: Result<(), DiagnosisError>)
    ensures
        match session {
            None => r == Err::<(), DiagnosisError>(DiagnosisError::NotFound),
            Some(s) => if plant matches Some(p) && p.id@ == s.plant_id@ && p.user_id@ == user_id@ {
                r is Ok
            } else {
                r == Err::<(), DiagnosisError>(DiagnosisError::Unauthorized)
            },
        },
{
    let s = match session {
        Some(s) => s,
        None => {
            return Err(DiagnosisError::NotFound);
        },
    };
    let p = match plant {
        Some(p) => p,
        None => {
            return Err(DiagnosisError::Unauthorized);
        },
    };
    if !str_eq(p.id.as_str(), s.plant_id.as_str()) {
        return Err(DiagnosisError::Unauthorized);
    }
    if !str_eq(p.user_id.as_str(), user_id) {
        return Err(DiagnosisError::Unauthorized);
    }
    Ok(())
}

/// Accept the user's answer: re-validate ownership and state, then append the
/// answer to the conversation history. On failure the session is untouched.
pub fn update_diagnosis(
    session: &mut DiagnosisSession,
    plant: Option<&Plant>,
    user_id: &str,
    message: String,
) -> (r: Result<(), DiagnosisError>)
    requires
        old(session).inv(),
    ensures
        match r {
            Ok(_) => {
                &&& update_guard(old(session), plant, user_id@) is None
                &&& final(session).diagnosis_context.conversation_history@ == old(session).diagnosis_context.conversation_history@.push(
                    (ChatTurn { role: Role::User, message: message }),
                )
                &&& final(session).id == old(session).id
                &&& final(session).plant_id == old(session).plant_id
                &&& final(session).status == old(session).status
                &&& final(session).diagnosis_context.initial_prompt == old(session).diagnosis_context.initial_prompt
                &&& final(session).diagnosis_context.state == old(session).diagnosis_context.state
                &&& final(session).diagnosis_context.plant_vitals == old(session).diagnosis_context.plant_vitals
                &&& final(session).diagnosis_context.result == old(session).diagnosis_context.result
                &&& final(session).created_at == old(session).created_at
                &&& final(session).updated_at == old(session).updated_at
                &&& final(session).inv()
            },
            Err(e) => *final(session) == *old(session) && update_guard(
                old(session),
                plant,
                user_id@,
            ) == Some(e),
        },
{
    let p = match plant {
        Some(p) => p,
        None => {
            return Err(DiagnosisError::Unauthorized);
        },
    };
    if !str_eq(p.id.as_str(), session.plant_id.as_str()) {
        return Err(DiagnosisError::Unauthorized);
    }
    if !str_eq(p.user_id.as_str(), user_id) {
        return Err(DiagnosisError::Unauthorized);
    }
    match session.status {
        DiagnosisStatus::PendingUserInput => {},
        _ => {
            return Err(DiagnosisError::InvalidState);
        },
    }
    session.diagnosis_context.conversation_history.push(
        ChatTurn { role: Role::User, message },
    );
    Ok(())
}

/// One cycle step: decode the AI's raw reply into a validated instruction and
/// apply it to the session. On any decode failure the session is left exactly
/// as it was, and the raw text is surfaced for diagnostics.
pub fn run_cycle_step(session: &mut DiagnosisSession, ai_text: &str, now: i64) -> (r: Result<
    ActionEffect,
    DiagnosisError,
>)
    requires
        old(session).inv(),
        old(session).status matches DiagnosisStatus::PendingUserInput,
    ensures
        final(session).id == old(session).id,
        final(session).plant_id == old(session).plant_id,
        final(session).created_at == old(session).created_at,
        final(session).diagnosis_context.initial_prompt == old(session).diagnosis_context.initial_prompt,
        final(session).diagnosis_context.plant_vitals == old(session).diagnosis_context.plant_vitals,
        final(session).inv(),
        match r {
            Err(e) => *final(session) == *old(session) && decode_error_matches(e, ai_text@),
            Ok(effect) => decode_spec(ai_text@) matches Ok((action, payload)) && match action {
                DiagnosisAction::GetPlantVitals => *final(session) == *old(session) && effect
                    == ActionEffect::FetchPlantVitals,
                DiagnosisAction::LogState => {
                    &&& effect == ActionEffect::Continue
                    &&& payload matches JsonValue::Object(fields)
                        && final(session).diagnosis_context.state@ == spec_merge(
                        old(session).diagnosis_context.state@,
                        fields@,
                    )
                    &&& final(session).status matches DiagnosisStatus::PendingUserInput
                    &&& final(session).diagnosis_context.conversation_history == old(session).diagnosis_context.conversation_history
                    &&& final(session).diagnosis_context.result == old(session).diagnosis_context.result
                    &&& final(session).updated_at == now
                },
                DiagnosisAction::AskUser => {
                    &&& effect matches ActionEffect::AskUser(q) && payload.spec_string_field(
                        "question"@,
                    ) == Some(q@) && final(session).diagnosis_context.conversation_history@ == old(session).diagnosis_context.conversation_history@.push(
                        (ChatTurn { role: Role::Assistant, message: q }),
                    )
                    &&& final(session).status matches DiagnosisStatus::PendingUserInput
                    &&& final(session).diagnosis_context.state == old(session).diagnosis_context.state
                    &&& final(session).diagnosis_context.result == old(session).diagnosis_context.result
                    &&& final(session).updated_at == now
                },
                DiagnosisAction::Conclude => {
                    &&& effect matches ActionEffect::Conclude { finding, recommendation }
                        && payload.spec_string_field("finding"@) == Some(finding@)
                        && payload.spec_string_field("recommendation"@) == Some(recommendation@)
                        && final(session).diagnosis_context.result == Some(
                        (DiagnosisResult { finding, recommendation }),
                    )
                    &&& final(session).status matches DiagnosisStatus::Completed
                    &&& final(session).diagnosis_context.conversation_history == old(session).diagnosis_context.conversation_history
                    &&& final(session).diagnosis_context.state == old(session).diagnosis_context.state
                    &&& final(session).updated_at == now
                },
            },
        },
{
    let executor = SandboxExecutor::new();
    let instruction = match executor.execute_code(ai_text, &JsonValue::Null) {
        Ok(res) => res,
        Err(e) => {
            return Err(e);
        },
    };
    let action = instruction.action;
    match executor.execute_action(instruction, &mut session.diagnosis_context) {
        Ok(effect) => {
            match &effect {
                ActionEffect::Continue => {
                    session.updated_at = now;
                },
                ActionEffect::FetchPlantVitals => {},
                ActionEffect::AskUser(q) => {
                    session.diagnosis_context.conversation_history.push(
                        ChatTurn { role: Role::Assistant, message: q.clone() },
                    );
                    session.status = DiagnosisStatus::PendingUserInput;
                    session.updated_at = now;
                },
                ActionEffect::Conclude { finding, recommendation } => {
                    session.diagnosis_context.result = Some(
                        DiagnosisResult {
                            finding: finding.clone(),
                            recommendation: recommendation.clone(),
                        },
                    );
                    session.status = DiagnosisStatus::Completed;
                    session.updated_at = now;
                },
            }
            Ok(effect)
        },
        Err(e) => Err(e),
    }
}

/// Populate the session's plant vitals from the plant lookup the caller made,
/// failing `NotFound` when the plant is absent, another plant's record, or
/// not the caller's.
pub fn apply_plant_vitals(
    session: &mut DiagnosisSession,
    plant: Option<&Plant>,
    user_id: &str,
    now: i64,
) -> (r: Result<(), DiagnosisError>)
    requires
        old(session).inv(),
    ensures
        match r {
            Ok(_) => {
                &&& plant_matches(plant, old(session).plant_id@, user_id@)
                &&& plant matches Some(p) && final(session).diagnosis_context.plant_vitals == Some(
                    (PlantVitals { name: p.name, care_schedule: p.care_schedule }),
                )
                &&& final(session).id == old(session).id
                &&& final(session).plant_id == old(session).plant_id
                &&& final(session).status == old(session).status
                &&& final(session).diagnosis_context.initial_prompt == old(session).diagnosis_context.initial_prompt
                &&& final(session).diagnosis_context.conversation_history == old(session).diagnosis_context.conversation_history
                &&& final(session).diagnosis_context.state == old(session).diagnosis_context.state
                &&& final(session).diagnosis_context.result == old(session).diagnosis_context.result
                &&& final(session).created_at == old(session).created_at
                &&& final(session).updated_at == now
                &&& final(session).inv()
            },
            Err(e) => {
                &&& *final(session) == *old(session)
                &&& e == DiagnosisError::NotFound
                &&& !plant_matches(plant, old(session).plant_id@, user_id@)
            },
        },
{
    let p = match plant {
        Some(p) => p,
        None => {
            return Err(DiagnosisError::NotFound);
        },
    };
    if !str_eq(p.user_id.as_str(), user_id) {
        return Err(DiagnosisError::NotFound);
    }
    if !str_eq(p.id.as_str(), session.plant_id.as_str()) {
        return Err(DiagnosisError::NotFound);
    }
    session.diagnosis_context.plant_vitals = Some(
        PlantVitals { name: p.name.clone(), care_schedule: p.care_schedule.clone() },
    );
    session.updated_at = now;
    Ok(())
}

/// The reply decodes to a GET_PLANT_VITALS instruction.
pub open spec fn decodes_vitals_fetch(text: Seq<char>) -> bool {
    decode_spec(text) matches Ok((DiagnosisAction::GetPlantVitals, _))
}

/// Whether the cycle loop stops at this reply: a failed decode, an ASK_USER
/// or CONCLUDE instruction, or a vitals fetch that the plant lookup at hand
/// cannot serve. LOG_STATE and a served vitals fetch loop back.
pub open spec fn is_terminal_step(text: Seq<char>, vitals_available: bool) -> bool {
    match decode_spec(text) {
        Err(_) => true,
        Ok((action, _)) => match action {
            DiagnosisAction::GetPlantVitals => !vitals_available,
            DiagnosisAction::LogState => false,
            DiagnosisAction::AskUser => true,
            DiagnosisAction::Conclude => true,
        },
    }
}

/// The first reply at or after `i` at which the cycle loop stops.
pub open spec fn first_stop(responses: Seq<String>, vitals_available: bool, i: int) -> Option<int>
    decreases responses.len() - i
        when 0 <= i <= responses.len()
{
    if i >= responses.len() {
        None
    } else if is_terminal_step(responses[i]@, vitals_available) {
        Some(i)
    } else {
        first_stop(responses, vitals_available, i + 1)
    }
}

/// Some reply before `end` decodes to a vitals fetch.
pub open spec fn fetched_vitals_before(responses: Seq<String>, end: int) -> bool {
    exists|j: int| 0 <= j < end && #[trigger] decodes_vitals_fetch(responses[j]@)
}

/// The hypothesis state after consuming the first `end` replies: the fold of
/// the LOG_STATE merges among them.
pub open spec fn state_after_prefix(
    state: Seq<(String, JsonValue)>,
    responses: Seq<String>,
    end: int,
) -> Seq<(String, JsonValue)>
    decreases end,
{
    if end <= 0 {
        state
    } else {
        let prev = state_after_prefix(state, responses, end - 1);
        match decode_spec(responses[end - 1]@) {
            Ok((DiagnosisAction::LogState, JsonValue::Object(fields))) => spec_merge(prev, fields@),
            _ => prev,
        }
    }
}

/// Run cycle steps against a fixed sequence of AI replies until one asks the
/// user a question or concludes the diagnosis. Replies that record state or
/// fetch vitals are consumed and loop back; the run stops at the first reply
/// that decodes to ASK_USER or CONCLUDE, fails to decode, or asks for vitals
/// the plant lookup cannot serve, and exhausting the replies without stopping
/// is an upstream failure. The contract pins the outcome of every case at the
/// stopping reply that `first_stop` names, and the hypothesis state as the
/// fold of the consumed LOG_STATE merges.
#[verifier::loop_isolation(false)]
pub fn run_diagnosis_cycle(
    session: &mut DiagnosisSession,
    plant: Option<&Plant>,
    user_id: &str,
    responses: &Vec<String>,
    now: i64,
) -> (r: Result<DiagnosisResponseDto, DiagnosisError>)
    requires
        old(session).inv(),
        old(session).status matches DiagnosisStatus::PendingUserInput,
    ensures
        final(session).id == old(session).id,
        final(session).plant_id == old(session).plant_id,
        final(session).created_at == old(session).created_at,
        final(session).diagnosis_context.initial_prompt == old(session).diagnosis_context.initial_prompt,
        final(session).inv(),
        ({
            let available = plant_matches(plant, old(session).plant_id@, user_id@);
            let state0 = old(session).diagnosis_context.state@;
            let stop = first_stop(responses@, available, 0);
            let consumed: int = match stop {
                None => responses@.len() as int,
                Some(k) => k,
            };
            &&& final(session).diagnosis_context.state@ == state_after_prefix(
                state0,
                responses@,
                consumed,
            )
            &&& (if fetched_vitals_before(responses@, consumed) {
                plant matches Some(p) && final(session).diagnosis_context.plant_vitals == Some(
                    (PlantVitals { name: p.name, care_schedule: p.care_schedule }),
                )
            } else {
                final(session).diagnosis_context.plant_vitals == old(session).diagnosis_context.plant_vitals
            })
            &&& match stop {
                None => {
                    &&& r == Err::<DiagnosisResponseDto, DiagnosisError>(
                        DiagnosisError::UpstreamError,
                    )
                    &&& final(session).status matches DiagnosisStatus::PendingUserInput
                    &&& final(session).diagnosis_context.conversation_history == old(session).diagnosis_context.conversation_history
                    &&& final(session).diagnosis_context.result == old(session).diagnosis_context.result
                    &&& final(session).updated_at == if responses@.len() == 0 {
                        old(session).updated_at
                    } else {
                        now
                    }
                },
                Some(k) => match decode_spec(responses@[k]@) {
                    Err(_) => {
                        &&& r matches Err(e) && decode_error_matches(e, responses@[k]@)
                        &&& final(session).status matches DiagnosisStatus::PendingUserInput
                        &&& final(session).diagnosis_context.conversation_history == old(session).diagnosis_context.conversation_history
                        &&& final(session).diagnosis_context.result == old(session).diagnosis_context.result
                        &&& final(session).updated_at == if k == 0 {
                            old(session).updated_at
                        } else {
                            now
                        }
                    },
                    Ok((action, payload)) => match action {
                        DiagnosisAction::GetPlantVitals => {
                            &&& r == Err::<DiagnosisResponseDto, DiagnosisError>(
                                DiagnosisError::NotFound,
                            )
                            &&& final(session).status matches DiagnosisStatus::PendingUserInput
                            &&& final(session).diagnosis_context.conversation_history == old(session).diagnosis_context.conversation_history
                            &&& final(session).diagnosis_context.result == old(session).diagnosis_context.result
                            &&& final(session).updated_at == if k == 0 {
                                old(session).updated_at
                            } else {
                                now
                            }
                        },
                        DiagnosisAction::LogState => false,
                        DiagnosisAction::AskUser => {
                            &&& r matches Ok(DiagnosisResponseDto::Ask(a))
                                && payload.spec_string_field("question"@) == Some(a.question@)
                                && a.diagnosis_id == final(session).id
                                && final(session).diagnosis_context.conversation_history@ == old(session).diagnosis_context.conversation_history@.push(
                                (ChatTurn { role: Role::Assistant, message: a.question }),
                            )
                            &&& final(session).status matches DiagnosisStatus::PendingUserInput
                            &&& final(session).diagnosis_context.result == old(session).diagnosis_context.result
                            &&& final(session).updated_at == now
                        },
                        DiagnosisAction::Conclude => {
                            &&& r matches Ok(DiagnosisResponseDto::Conclude(c))
                                && payload.spec_string_field("finding"@) == Some(c.finding@)
                                && payload.spec_string_field("recommendation"@) == Some(
                                c.recommendation@,
                            )
                                && c.diagnosis_id == final(session).id
                                && final(session).diagnosis_context.result == Some(
                                (DiagnosisResult { finding: c.finding, recommendation: c.recommendation }),
                            )
                            &&& final(session).status matches DiagnosisStatus::Completed
                            &&& final(session).diagnosis_context.conversation_history == old(session).diagnosis_context.conversation_history
                            &&& final(session).updated_at == now
                        },
                    },
                },
            }
        }),
{
    let ghost available = plant_matches(plant, old(session).plant_id@, user_id@);
    let ghost state0 = old(session).diagnosis_context.state@;
    let n = responses.len();
    let mut k: usize = 0;
    while k < n
        invariant
            0 <= k <= n,
            n == responses@.len(),
            session.inv(),
            session.status matches DiagnosisStatus::PendingUserInput,
            session.id == old(session).id,
            session.plant_id == old(session).plant_id,
            session.created_at == old(session).created_at,
            session.diagnosis_context.initial_prompt == old(session).diagnosis_context.initial_prompt,
            session.diagnosis_context.conversation_history == old(session).diagnosis_context.conversation_history,
            session.diagnosis_context.result == old(session).diagnosis_context.result,
            session.diagnosis_context.state@ == state_after_prefix(state0, responses@, k as int),
            (if fetched_vitals_before(responses@, k as int) {
                plant matches Some(p) && session.diagnosis_context.plant_vitals == Some(
                    (PlantVitals { name: p.name, care_schedule: p.care_schedule }),
                )
            } else {
                session.diagnosis_context.plant_vitals == old(session).diagnosis_context.plant_vitals
            }),
            session.updated_at == if k == 0 {
                old(session).updated_at
            } else {
                now
            },
            first_stop(responses@, available, 0) == first_stop(responses@, available, k as int),
        decreases n - k,
    {
        let ghost text = responses@[k as int]@;
        let effect = match run_cycle_step(session, responses[k].as_str(), now) {
            Ok(e) => e,
            Err(e) => {
                proof {
                    assert(is_terminal_step(text, available));
                    assert(first_stop(responses@, available, k as int) == Some(k as int));
                }
                return Err(e);
            },
        };
        match effect {
            ActionEffect::Continue => {
                proof {
                    assert(!is_terminal_step(text, available));
                    assert(!decodes_vitals_fetch(text));
                    assert(session.diagnosis_context.state@ == state_after_prefix(
                        state0,
                        responses@,
                        k as int + 1,
                    ));
                    assert(first_stop(responses@, available, k as int) == first_stop(
                        responses@,
                        available,
                        k as int + 1,
                    ));
                }
            },
            ActionEffect::FetchPlantVitals => {
                match apply_plant_vitals(session, plant, user_id, now) {
                    Ok(_) => {
                        proof {
                            assert(available);
                            assert(!is_terminal_step(text, available));
                            assert(decodes_vitals_fetch(text));
                            assert(fetched_vitals_before(responses@, k as int + 1));
                            assert(state_after_prefix(state0, responses@, k as int + 1)
                                == state_after_prefix(state0, responses@, k as int));
                            assert(first_stop(responses@, available, k as int) == first_stop(
                                responses@,
                                available,
                                k as int + 1,
                            ));
                        }
                    },
                    Err(e) => {
                        proof {
                            assert(!available);
                            assert(is_terminal_step(text, available));
                            assert(first_stop(responses@, available, k as int) == Some(k as int));
                        }
                        return Err(e);
                    },
                }
            },
            ActionEffect::AskUser(q) => {
                proof {
                    assert(is_terminal_step(text, available));
                    assert(first_stop(responses@, available, k as int) == Some(k as int));
                }
                return Ok(
                    DiagnosisResponseDto::Ask(
                        DiagnosisAskResponse { diagnosis_id: session.id.clone(), question: q },
                    ),
                );
            },
            ActionEffect::Conclude { finding, recommendation } => {
                proof {
                    assert(is_terminal_step(text, available));
                    assert(first_stop(responses@, available, k as int) == Some(k as int));
                }
                return Ok(
                    DiagnosisResponseDto::Conclude(
                        DiagnosisConcludeResponse {
                            diagnosis_id: session.id.clone(),
                            finding,
                            recommendation,
                        },
                    ),
                );
            },
        }
        k = k + 1;
    }
    proof {
        assert(first_stop(responses@, available, n as int) is None);
    }
    Err(DiagnosisError::UpstreamError)
}

} // verus!
