//! The diagnosis session entity: the durable state of one conversation.

use vstd::prelude::*;

use crate::enums::DiagnosisStatus;
use crate::json::JsonValue;
use crate::schedule::CareSchedule;
use crate::stamp::fresh_id;
use crate::stamp::now_millis;

verus! {

/// Who spoke a conversation turn.
#[derive(Debug, Clone, Copy, PartialEq, Eq, Structural)]
pub enum Role {
    User,
    Assistant,
}

/// One turn of the diagnostic conversation.
#[derive(Debug, PartialEq, Eq)]
pub struct ChatTurn {
    pub role: Role,
    pub message: String,
}

impl Clone for ChatTurn {
    fn clone(&self) -> (r: Self)
        ensures
            r == *self,
    {
        ChatTurn { role: self.role, message: self.message.clone() }
    }
}

/// The snapshot of a plant's name and care schedule embedded in a session for
/// the AI's reference.
#[derive(Debug, PartialEq, Eq)]
pub struct PlantVitals {
    pub name: String,
    pub care_schedule: CareSchedule,
}

impl Clone for PlantVitals {
    fn clone(&self) -> (r: Self)
        ensures
            r == *self,
    {
        PlantVitals { name: self.name.clone(), care_schedule: self.care_schedule.clone() }
    }
}

/// The finding and recommendation a concluded diagnosis carries.
#[derive(Debug, PartialEq, Eq)]
pub struct DiagnosisResult {
    pub finding: String,
    pub recommendation: String,
}

impl Clone for DiagnosisResult {
    fn clone(&self) -> (r: Self)
        ensures
            r == *self,
    {
        DiagnosisResult {
            finding: self.finding.clone(),
            recommendation: self.recommendation.clone(),
        }
    }
}

/// The structured context of a diagnosis: a fixed record plus one open
/// key/value bag for accumulated hypothesis state.
#[derive(Debug, PartialEq, Eq)]
pub struct DiagnosisContext {
    /// The user's original problem description; never changes.
    pub initial_prompt: String,
    /// Every turn spoken so far, chronological and append-only.
    pub conversation_history: Vec<ChatTurn>,
    /// Hypothesis state accumulated across cycles; keys may be overwritten,
    /// never removed.
    pub state: Vec<(String, JsonValue)>,
    /// The plant snapshot, populated once at session start (or on demand).
    pub plant_vitals: Option<PlantVitals>,
    /// Populated exactly when the session is completed.
    pub result: Option<DiagnosisResult>,
}

/// An ongoing or finished diagnosis session. Timestamps are milliseconds
/// since the Unix epoch.
#[derive(Debug, PartialEq, Eq)]
pub struct DiagnosisSession {
    pub id: String,
    pub plant_id: String,
    pub status: DiagnosisStatus,
    pub diagnosis_context: DiagnosisContext,
    pub created_at: i64,
    pub updated_at: i64,
}

impl DiagnosisSession {
    /// The session invariant: a result is recorded exactly when the session
    /// is completed.
    pub open spec fn inv(&self) -> bool {
        self.diagnosis_context.result is Some <==> self.status matches DiagnosisStatus::Completed
    }

    /// Decide the invariant, for callers that load sessions from storage.
    pub fn is_well_formed(&self) -> (r: bool)
        ensures
            r == self.inv(),
    {
        let has_result = match &self.diagnosis_context.result {
            Some(_) => true,
            None => false,
        };
        let completed = match self.status {
            DiagnosisStatus::Completed => true,
            _ => false,
        };
        has_result == completed
    }

    /// A fresh session for `plant_id`, its history seeded with the user's
    /// problem description.
    pub fn new(plant_id: String, initial_prompt: String) -> (r: Self)
        ensures
            r.plant_id == plant_id,
            r.status matches DiagnosisStatus::PendingUserInput,
            r.diagnosis_context.initial_prompt == initial_prompt,
            r.diagnosis_context.conversation_history@ == seq![
                (ChatTurn { role: Role::User, message: initial_prompt }),
            ],
            r.diagnosis_context.state@ == Seq::<(String, JsonValue)>::empty(),
            r.diagnosis_context.plant_vitals is None,
            r.diagnosis_context.result is None,
            r.created_at == r.updated_at,
            r.id@.len() == 36,
            r.inv(),
    {
        let now = now_millis();
        let mut conversation_history: Vec<ChatTurn> = Vec::new();
        conversation_history.push(ChatTurn { role: Role::User, message: initial_prompt.clone() });
        proof {
            assert(conversation_history@ =~= seq![
                (ChatTurn { role: Role::User, message: initial_prompt }),
            ]);
        }
        DiagnosisSession {
            id: fresh_id(),
            plant_id,
            status: DiagnosisStatus::PendingUserInput,
            diagnosis_context: DiagnosisContext {
                initial_prompt,
                conversation_history,
                state: Vec::new(),
                plant_vitals: None,
                result: None,
            },
            created_at: now,
            updated_at: now,
        }
    }
}

} // verus!
