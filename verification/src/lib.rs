//! Verified core of an AI-driven plant diagnosis engine.
//!
//! The library models the diagnostic conversation: extracting a structured
//! instruction from raw model text, validating it against the grammar of the
//! recognized actions, and stepping a diagnosis session through its state
//! machine. The caller performs the outside work — AI completions and
//! persistence — and hands the results in as plain values.

pub mod dto;
pub mod engine;
pub mod enums;
pub mod errors;
pub mod executor;
pub mod json;
pub mod laws;
pub mod plant;
pub mod schedule;
pub mod session;
mod stamp;
pub mod text;

pub use dto::DiagnosisAskResponse;
pub use dto::DiagnosisConcludeResponse;
pub use dto::DiagnosisResponseDto;
pub use dto::DiagnosisStartDto;
pub use dto::DiagnosisUpdateDto;
pub use enums::DiagnosisAction;
pub use enums::DiagnosisStatus;
pub use errors::DiagnosisError;
pub use executor::ActionEffect;
pub use executor::ExecutionResult;
pub use executor::SandboxExecutor;
pub use json::JsonValue;
pub use plant::Plant;
pub use schedule::CareSchedule;
pub use session::ChatTurn;
pub use session::DiagnosisContext;
pub use session::DiagnosisResult;
pub use session::DiagnosisSession;
pub use session::PlantVitals;
pub use session::Role;
