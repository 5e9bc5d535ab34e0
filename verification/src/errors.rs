//! Error taxonomy of the diagnosis engine.

use vstd::prelude::*;

verus! {

/// Every way a diagnosis call can fail.
///
/// `ParseFailure` carries the unmodified raw model text for diagnostics;
/// `InvalidAction` carries the unrecognized action name, or `None` when the
/// instruction had no string-valued action name at all.
#[derive(Debug, PartialEq, Eq)]
pub enum DiagnosisError {
    /// The plant or session looked up does not exist.
    NotFound,
    /// The session's plant does not belong to the caller.
    Unauthorized,
    /// An update was attempted on a session that is not pending user input.
    InvalidState,
    /// The AI client failed or returned no completion.
    UpstreamError,
    /// No structured payload could be extracted from the raw model text.
    ParseFailure(String),
    /// The instruction's action name is missing or not recognized.
    InvalidAction(Option<String>),
    /// The instruction has no payload, or its payload is null.
    MissingPayload,
    /// The payload does not match the grammar of its action.
    InvalidPayload,
}

} // verus!
