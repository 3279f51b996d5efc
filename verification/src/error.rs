//! The ways in which a call on the bridge can fail.

use vstd::prelude::*;
use vstd::string::StringExecFns;

verus! {

/// A failure reported to the caller of the bridge.
#[derive(Debug, Clone, PartialEq, Eq)]
pub enum EngineError {
    /// The one engine of this process had already been constructed.
    AlreadyInitialized,
    /// The engine has asked to exit; nothing is handed to it any more.
    EngineTerminated,
    /// The engine ran the call and reported a failure, with its reason.
    EngineCallFailed(String),
    /// A vector held complex samples where real ones were expected.
    DataShapeMismatch,
}

/// What `EngineError::message` says for each failure, as a sequence of characters.
pub open spec fn message_text(error: EngineError) -> Seq<char> {
    match error {
        EngineError::AlreadyInitialized => "Multiple Ngspice instance is not supported"@,
        EngineError::EngineTerminated => "NgSpice exited"@,
        EngineError::EngineCallFailed(reason) => reason@,
        EngineError::DataShapeMismatch => "Data contains complex"@,
    }
}

impl EngineError {
    /// The text shown to the user for this failure.
    pub fn message(&self) -> (text: String)
        ensures
            text@ == message_text(*self),
    {
        match self {
            EngineError::AlreadyInitialized => String::from_str(
                "Multiple Ngspice instance is not supported",
            ),
            EngineError::EngineTerminated => String::from_str("NgSpice exited"),
            EngineError::EngineCallFailed(reason) => reason.clone(),
            EngineError::DataShapeMismatch => String::from_str("Data contains complex"),
        }
    }
}

} // verus!
