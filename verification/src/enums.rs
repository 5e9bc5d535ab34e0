//! Core business enumerations: session status and diagnostic actions.

use vstd::prelude::*;

use crate::text::str_eq;

verus! {

/// The lifecycle status of a diagnosis session.
#[derive(Debug, Clone, Copy, PartialEq, Eq, Structural)]
pub enum DiagnosisStatus {
    PendingUserInput,
    Completed,
    Cancelled,
}

/// The wire name of a status.
pub open spec fn status_name(status: DiagnosisStatus) -> Seq<char> {
    match status {
        DiagnosisStatus::PendingUserInput => "PENDING_USER_INPUT"@,
        DiagnosisStatus::Completed => "COMPLETED"@,
        DiagnosisStatus::Cancelled => "CANCELLED"@,
    }
}

/// The status a wire name stands for, if any.
pub open spec fn status_of_name(s: Seq<char>) -> Option<DiagnosisStatus> {
    if s == "PENDING_USER_INPUT"@ {
        Some(DiagnosisStatus::PendingUserInput)
    } else if s == "COMPLETED"@ {
        Some(DiagnosisStatus::Completed)
    } else if s == "CANCELLED"@ {
        Some(DiagnosisStatus::Cancelled)
    } else {
        None
    }
}

impl DiagnosisStatus {
    /// The wire name of this status.
    pub fn as_str(&self) -> (r: &'static str)
        ensures
            r@ == status_name(*self),
    {
        match self {
            DiagnosisStatus::PendingUserInput => "PENDING_USER_INPUT",
            DiagnosisStatus::Completed => "COMPLETED",
            DiagnosisStatus::Cancelled => "CANCELLED",
        }
    }

    /// The status named by `s`, if recognized.
    pub fn from_str(s: &str) -> (r: Option<Self>)
        ensures
            r == status_of_name(s@),
    {
        if str_eq(s, "PENDING_USER_INPUT") {
            Some(DiagnosisStatus::PendingUserInput)
        } else if str_eq(s, "COMPLETED") {
            Some(DiagnosisStatus::Completed)
        } else if str_eq(s, "CANCELLED") {
            Some(DiagnosisStatus::Cancelled)
        } else {
            None
        }
    }
}

/// The actions the AI may request during a diagnosis cycle.
#[derive(Debug, Clone, Copy, PartialEq, Eq, Structural)]
pub enum DiagnosisAction {
    GetPlantVitals,
    LogState,
    AskUser,
    Conclude,
}

/// The action a wire name stands for, if any.
pub open spec fn action_of_name(s: Seq<char>) -> Option<DiagnosisAction> {
    if s == "GET_PLANT_VITALS"@ {
        Some(DiagnosisAction::GetPlantVitals)
    } else if s == "LOG_STATE"@ {
        Some(DiagnosisAction::LogState)
    } else if s == "ASK_USER"@ {
        Some(DiagnosisAction::AskUser)
    } else if s == "CONCLUDE"@ {
        Some(DiagnosisAction::Conclude)
    } else {
        None
    }
}

impl DiagnosisAction {
    /// The action named by `s`, if recognized.
    pub fn from_str(s: &str) -> (r: Option<Self>)
        ensures
            r == action_of_name(s@),
    {
        if str_eq(s, "GET_PLANT_VITALS") {
            Some(DiagnosisAction::GetPlantVitals)
        } else if str_eq(s, "LOG_STATE") {
            Some(DiagnosisAction::LogState)
        } else if str_eq(s, "ASK_USER") {
            Some(DiagnosisAction::AskUser)
        } else if str_eq(s, "CONCLUDE") {
            Some(DiagnosisAction::Conclude)
        } else {
            None
        }
    }
}

} // verus!
