//! Data transfer objects between the engine and its callers.

use vstd::prelude::*;

verus! {

/// The user's problem report that starts a diagnosis.
#[derive(Debug, PartialEq, Eq)]
pub struct DiagnosisStartDto {
    pub prompt: String,
}

/// The user's answer to the engine's last question.
#[derive(Debug, PartialEq, Eq)]
pub struct DiagnosisUpdateDto {
    pub message: String,
}

/// The engine asks the user another question.
#[derive(Debug, PartialEq, Eq)]
pub struct DiagnosisAskResponse {
    pub diagnosis_id: String,
    pub question: String,
}

/// The engine concludes the diagnosis.
#[derive(Debug, PartialEq, Eq)]
pub struct DiagnosisConcludeResponse {
    pub diagnosis_id: String,
    pub finding: String,
    pub recommendation: String,
}

/// What a cycle run hands back to the caller.
#[derive(Debug, PartialEq, Eq)]
pub enum DiagnosisResponseDto {
    Ask(DiagnosisAskResponse),
    Conclude(DiagnosisConcludeResponse),
}

} // verus!
