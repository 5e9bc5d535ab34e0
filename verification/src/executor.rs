//! Validation and execution of AI diagnosis instructions.
//!
//! The AI answers with structured text. [`SandboxExecutor::parse_ai_response`]
//! pulls a structured value out of that text (bare, fenced, or embedded),
//! [`SandboxExecutor::validate_payload`] checks it against the grammar of the
//! recognized actions, and [`SandboxExecutor::execute_code`] combines the two
//! into a validated instruction. Arbitrary AI-generated code is never run.

use vstd::prelude::*;

use crate::enums::action_of_name;
use crate::enums::DiagnosisAction;
use crate::errors::DiagnosisError;
use crate::json::json_of;
use crate::json::merge_fields;
use crate::json::parse_json;
use crate::json::JsonValue;
use crate::session::DiagnosisContext;
use crate::text::contains_sub;
use crate::text::ffind_char;
use crate::text::find_char;
use crate::text::find_char_last;
use crate::text::find_str;
use crate::text::find_sub;
use crate::text::lemma_ffind_char_some;
use crate::text::lemma_find_from_some;
use crate::text::lemma_rfind_char_some;
use crate::text::rfind_char;
use crate::text::trim;
use crate::text::trim_spec;

verus! {

/// Validates and applies structured diagnosis instructions.
pub struct SandboxExecutor;

/// A parsed and validated diagnosis instruction.
#[derive(Debug)]
pub struct ExecutionResult {
    pub action: DiagnosisAction,
    pub payload: JsonValue,
}

/// The effect of executing a validated instruction.
#[derive(Debug, PartialEq, Eq)]
pub enum ActionEffect {
    /// Keep cycling: the instruction only recorded state.
    Continue,
    /// The plant's vitals must be fetched before the next cycle.
    FetchPlantVitals,
    /// Ask the user the carried question.
    AskUser(String),
    /// Conclude the diagnosis with a finding and a recommendation.
    Conclude { finding: String, recommendation: String },
}

/// Why a raw text failed to decode into a validated instruction.
#[derive(Debug, Clone, Copy, PartialEq, Eq, Structural)]
pub enum InstructionFault {
    /// No structured value could be extracted from the text.
    Unparsable,
    /// The extracted value has no string field naming the action.
    ActionMissing,
    /// The named action is not one of the recognized kinds.
    ActionUnknown,
    /// The payload field is absent or null.
    PayloadMissing,
    /// The payload does not match the action's grammar.
    PayloadInvalid,
}

/// The text that remains after the first occurrence of `pat`.
pub open spec fn after_first(s: Seq<char>, pat: Seq<char>) -> Seq<char> {
    match find_sub(s, pat) {
        Some(i) => s.skip(i + pat.len() as int),
        None => s,
    }
}

/// The prefix of `s` up to its first fence, or all of `s` when it has none.
pub open spec fn up_to_fence(s: Seq<char>) -> Seq<char> {
    match find_sub(s, "```"@) {
        Some(j) => s.take(j),
        None => s,
    }
}

/// The substring between the first `{` and the last `}` of `s`, inclusive,
/// when both exist in that order.
pub open spec fn brace_slice(s: Seq<char>) -> Option<Seq<char>> {
    match (ffind_char(s, '{'), rfind_char(s, '}')) {
        (Some(i), Some(j)) => if i <= j {
            Some(s.subrange(i, j + 1))
        } else {
            None
        },
        _ => None,
    }
}

/// What extraction yields on a raw text, in strict precedence order: the text
/// parsed whole; else the trimmed content of its first tagged fence; else the
/// trimmed content of its first generic fence; else the substring between its
/// first `{` and last `}`.
pub open spec fn extract_spec(s: Seq<char>) -> Option<JsonValue> {
    if json_of(s) is Some {
        json_of(s)
    } else if contains_sub(s, "```json"@) {
        json_of(trim_spec(up_to_fence(after_first(s, "```json"@))))
    } else if contains_sub(s, "```"@) {
        json_of(trim_spec(up_to_fence(after_first(s, "```"@))))
    } else {
        match brace_slice(s) {
            Some(sub) => json_of(sub),
            None => None,
        }
    }
}

/// The payload shape each action requires of a well-formed instruction.
pub open spec fn payload_valid(action: DiagnosisAction, payload: &JsonValue) -> bool {
    match action {
        DiagnosisAction::GetPlantVitals => true,
        DiagnosisAction::LogState => payload.is_nonempty_object(),
        DiagnosisAction::AskUser => match payload.spec_string_field("question"@) {
            Some(q) => q.len() > 0,
            None => false,
        },
        DiagnosisAction::Conclude => {
            &&& match payload.spec_string_field("finding"@) {
                Some(f) => f.len() > 0,
                None => false,
            }
            &&& match payload.spec_string_field("recommendation"@) {
                Some(rec) => rec.len() > 0,
                None => false,
            }
        },
    }
}

/// The action name an extracted instruction carries, when it carries one.
pub open spec fn spec_action_name(text: Seq<char>) -> Option<Seq<char>> {
    match extract_spec(text) {
        Some(v) => v.spec_string_field("action"@),
        None => None,
    }
}

/// What decoding a raw text into a validated instruction yields: the action
/// and its payload, or the first fault in precedence order.
pub open spec fn decode_spec(text: Seq<char>) -> Result<(DiagnosisAction, JsonValue), InstructionFault> {
    match extract_spec(text) {
        None => Err(InstructionFault::Unparsable),
        Some(v) => match v.spec_string_field("action"@) {
            None => Err(InstructionFault::ActionMissing),
            Some(name) => match action_of_name(name) {
                None => Err(InstructionFault::ActionUnknown),
                Some(action) => match v.spec_field("payload"@) {
                    None => Err(InstructionFault::PayloadMissing),
                    Some(p) => if p == JsonValue::Null {
                        Err(InstructionFault::PayloadMissing)
                    } else if payload_valid(action, &p) {
                        Ok((action, p))
                    } else {
                        Err(InstructionFault::PayloadInvalid)
                    },
                },
            },
        },
    }
}

/// The error a failed decode surfaces as, with its diagnostic payload.
pub open spec fn decode_error_matches(e: DiagnosisError, text: Seq<char>) -> bool {
    match decode_spec(text) {
        Ok(_) => false,
        Err(InstructionFault::Unparsable) => e matches DiagnosisError::ParseFailure(raw)
            && raw@ == text,
        Err(InstructionFault::ActionMissing) => e == DiagnosisError::InvalidAction(
            None::<String>,
        ),
        Err(InstructionFault::ActionUnknown) => e matches DiagnosisError::InvalidAction(n)
            && n matches Some(name) && spec_action_name(text) == Some(name@),
        Err(InstructionFault::PayloadMissing) => e == DiagnosisError::MissingPayload,
        Err(InstructionFault::PayloadInvalid) => e == DiagnosisError::InvalidPayload,
    }
}

impl SandboxExecutor {
    pub fn new() -> (r: Self) {
        SandboxExecutor
    }

    /// Extract a structured value from raw AI text, handling bare values,
    /// fenced blocks (tagged or generic), and text with an embedded object.
    #[verifier::loop_isolation(false)]
    pub fn parse_ai_response(&self, response: &str) -> (r: Result<JsonValue, DiagnosisError>)
        ensures
            match r {
                Ok(v) => extract_spec(response@) == Some(v),
                Err(e) => extract_spec(response@) is None && (
                e matches DiagnosisError::ParseFailure(raw) && raw@ == response@),
            },
    {
        if let Some(v) = parse_json(response) {
            return Ok(v);
        }
        let n = response.unicode_len();
        let tagged = "```json";
        let fence = "```";
        if let Some(i) = find_str(response, tagged) {
            proof {
                lemma_find_from_some(response@, tagged@, 0, i as int);
            }
            let tlen = tagged.unicode_len();
            let after = response.substring_char(i + tlen, n);
            proof {
                assert(after@ =~= after_first(response@, tagged@));
            }
            let content = match find_str(after, fence) {
                Some(j) => {
                    proof {
                        lemma_find_from_some(after@, fence@, 0, j as int);
                    }
                    after.substring_char(0, j)
                },
                None => after,
            };
            proof {
                assert(content@ =~= up_to_fence(after_first(response@, tagged@)));
            }
            let trimmed = trim(content);
            match parse_json(trimmed) {
                Some(v) => Ok(v),
                None => Err(DiagnosisError::ParseFailure(response.to_owned())),
            }
        } else if let Some(i) = find_str(response, fence) {
            proof {
                lemma_find_from_some(response@, fence@, 0, i as int);
            }
            let flen = fence.unicode_len();
            let after = response.substring_char(i + flen, n);
            proof {
                assert(after@ =~= after_first(response@, fence@));
            }
            let content = match find_str(after, fence) {
                Some(j) => {
                    proof {
                        lemma_find_from_some(after@, fence@, 0, j as int);
                    }
                    after.substring_char(0, j)
                },
                None => after,
            };
            proof {
                assert(content@ =~= up_to_fence(after_first(response@, fence@)));
            }
            let trimmed = trim(content);
            match parse_json(trimmed) {
                Some(v) => Ok(v),
                None => Err(DiagnosisError::ParseFailure(response.to_owned())),
            }
        } else {
            let start = find_char(response, '{');
            let end = find_char_last(response, '}');
            if let (Some(i), Some(j)) = (start, end) {
                proof {
                    lemma_ffind_char_some(response@, '{', i as int);
                    lemma_rfind_char_some(response@, '}', j as int);
                }
                if i <= j {
                    let sub = response.substring_char(i, j + 1);
                    proof {
                        assert(brace_slice(response@) == Some(sub@));
                    }
                    match parse_json(sub) {
                        Some(v) => Ok(v),
                        None => Err(DiagnosisError::ParseFailure(response.to_owned())),
                    }
                } else {
                    Err(DiagnosisError::ParseFailure(response.to_owned()))
                }
            } else {
                Err(DiagnosisError::ParseFailure(response.to_owned()))
            }
        }
    }

    /// Check that the payload has the fields its action requires.
    pub fn validate_payload(&self, action: &DiagnosisAction, payload: &JsonValue) -> (r: Result<
        (),
        DiagnosisError,
    >)
        ensures
            r is Ok <==> payload_valid(*action, payload),
            r is Err ==> r == Err::<(), DiagnosisError>(DiagnosisError::InvalidPayload),
    {
        match action {
            DiagnosisAction::GetPlantVitals => Ok(()),
            DiagnosisAction::LogState => {
                match payload {
                    JsonValue::Object(fields) => {
                        if fields.len() > 0 {
                            Ok(())
                        } else {
                            Err(DiagnosisError::InvalidPayload)
                        }
                    },
                    _ => Err(DiagnosisError::InvalidPayload),
                }
            },
            DiagnosisAction::AskUser => {
                match payload.get_field("question") {
                    Some(JsonValue::String(q)) => {
                        if q.as_str().unicode_len() > 0 {
                            Ok(())
                        } else {
                            Err(DiagnosisError::InvalidPayload)
                        }
                    },
                    _ => Err(DiagnosisError::InvalidPayload),
                }
            },
            DiagnosisAction::Conclude => {
                let finding_ok = match payload.get_field("finding") {
                    Some(JsonValue::String(f)) => f.as_str().unicode_len() > 0,
                    _ => false,
                };
                let recommendation_ok = match payload.get_field("recommendation") {
                    Some(JsonValue::String(rec)) => rec.as_str().unicode_len() > 0,
                    _ => false,
                };
                if finding_ok && recommendation_ok {
                    Ok(())
                } else {
                    Err(DiagnosisError::InvalidPayload)
                }
            },
        }
    }

    /// Decode raw AI text into a validated instruction: extract a structured
    /// value, read and recognize its action name, and check its payload.
    pub fn execute_code(&self, code: &str, _params: &JsonValue) -> (r: Result<
        ExecutionResult,
        DiagnosisError,
    >)
        ensures
            match r {
                Ok(res) => decode_spec(code@) == Ok::<(DiagnosisAction, JsonValue), InstructionFault>(
                    (res.action, res.payload),
                ),
                Err(e) => decode_error_matches(e, code@),
            },
    {
        let parsed = match self.parse_ai_response(code) {
            Ok(v) => v,
            Err(e) => {
                return Err(e);
            },
        };
        let name: String = match parsed.get_field("action") {
            Some(JsonValue::String(s)) => s.clone(),
            _ => {
                return Err(DiagnosisError::InvalidAction(None));
            },
        };
        let action = match DiagnosisAction::from_str(name.as_str()) {
            Some(a) => a,
            None => {
                return Err(DiagnosisError::InvalidAction(Some(name)));
            },
        };
        let payload = match parsed.take_field("payload") {
            Some(p) => p,
            None => {
                return Err(DiagnosisError::MissingPayload);
            },
        };
        if let JsonValue::Null = payload {
            return Err(DiagnosisError::MissingPayload);
        }
        match self.validate_payload(&action, &payload) {
            Ok(_) => {},
            Err(e) => {
                return Err(e);
            },
        }
        Ok(ExecutionResult { action, payload })
    }

    /// Apply a validated instruction to the diagnosis context and report its
    /// effect. Only LOG_STATE touches the context here; what ASK_USER and
    /// CONCLUDE do to the session is applied by the cycle engine.
    pub fn execute_action(&self, result: ExecutionResult, context: &mut DiagnosisContext) -> (r:
        Result<ActionEffect, DiagnosisError>)
        requires
            payload_valid(result.action, &result.payload),
        ensures
            r is Ok,
            match result.action {
                DiagnosisAction::GetPlantVitals => *final(context) == *old(context) && r == Ok::<
                    ActionEffect,
                    DiagnosisError,
                >(ActionEffect::FetchPlantVitals),
                DiagnosisAction::LogState => {
                    &&& r == Ok::<ActionEffect, DiagnosisError>(ActionEffect::Continue)
                    &&& result.payload matches JsonValue::Object(fields)
                        && final(context).state@ == crate::json::spec_merge(
                        old(context).state@,
                        fields@,
                    )
                    &&& final(context).initial_prompt == old(context).initial_prompt
                    &&& final(context).conversation_history == old(context).conversation_history
                    &&& final(context).plant_vitals == old(context).plant_vitals
                    &&& final(context).result == old(context).result
                },
                DiagnosisAction::AskUser => *final(context) == *old(context) && (
                r matches Ok(ActionEffect::AskUser(q)) && result.payload.spec_string_field(
                    "question"@,
                ) == Some(q@)),
                DiagnosisAction::Conclude => *final(context) == *old(context) && (
                r matches Ok(ActionEffect::Conclude { finding, recommendation })
                    && result.payload.spec_string_field("finding"@) == Some(finding@)
                    && result.payload.spec_string_field("recommendation"@) == Some(
                    recommendation@,
                )),
            },
    {
        match result.action {
            DiagnosisAction::GetPlantVitals => Ok(ActionEffect::FetchPlantVitals),
            DiagnosisAction::LogState => {
                match result.payload {
                    JsonValue::Object(fields) => {
                        merge_fields(&mut context.state, fields);
                        Ok(ActionEffect::Continue)
                    },
                    _ => {
                        proof {
                            assert(false);
                        }
                        Err(DiagnosisError::InvalidPayload)
                    },
                }
            },
            DiagnosisAction::AskUser => {
                match result.payload.get_field("question") {
                    Some(JsonValue::String(q)) => Ok(ActionEffect::AskUser(q.clone())),
                    _ => {
                        proof {
                            assert(false);
                        }
                        Err(DiagnosisError::InvalidPayload)
                    },
                }
            },
            DiagnosisAction::Conclude => {
                let finding = match result.payload.get_field("finding") {
                    Some(JsonValue::String(f)) => f.clone(),
                    _ => {
                        proof {
                            assert(false);
                        }
                        return Err(DiagnosisError::InvalidPayload);
                    },
                };
                let recommendation = match result.payload.get_field("recommendation") {
                    Some(JsonValue::String(rec)) => rec.clone(),
                    _ => {
                        proof {
                            assert(false);
                        }
                        return Err(DiagnosisError::InvalidPayload);
                    },
                };
                Ok(ActionEffect::Conclude { finding, recommendation })
            },
        }
    }
}

} // verus!
