//! The rules of the circuit document: when it may be loaded and saved, when
//! it counts as modified, and what the dialog about unsaved changes leads to.
//!
//! The document itself, its text and its file, live with the front end; what
//! is decided here is decided from plain facts about it.

use vstd::prelude::*;
use vstd::string::{StrSliceExecFns, StringExecFns};
use crate::text::range_equals;

verus! {

/// Why an operation on a circuit document is refused.
#[derive(Debug, Clone, Copy, PartialEq, Eq, Structural)]
pub enum CircuitError {
    /// The operation needs a file, and the circuit is a draft.
    Draft,
    /// The operation is for drafts, and the circuit has a file.
    NotDraft,
}

/// What `CircuitError::message` says for each refusal.
pub open spec fn refusal_text(error: CircuitError) -> Seq<char> {
    match error {
        CircuitError::Draft => "Circuit must not be a draft"@,
        CircuitError::NotDraft => "Circuit must be a draft"@,
    }
}

impl CircuitError {
    /// The text that describes this refusal.
    pub fn message(&self) -> (text: String)
        ensures
            text@ == refusal_text(*self),
    {
        match self {
            CircuitError::Draft => String::from_str("Circuit must not be a draft"),
            CircuitError::NotDraft => String::from_str("Circuit must be a draft"),
        }
    }
}

/// Whether a circuit can be loaded from its file: only one that has a file.
pub fn load(has_file: bool) -> (allowed: Result<(), CircuitError>)
    ensures
        allowed == if has_file {
            Ok::<(), CircuitError>(())
        } else {
            Err::<(), CircuitError>(CircuitError::Draft)
        },
{
    if has_file {
        Ok(())
    } else {
        Err(CircuitError::Draft)
    }
}

/// Whether a circuit can be saved to its file: only one that has a file.
pub fn save(has_file: bool) -> (allowed: Result<(), CircuitError>)
    ensures
        allowed == if has_file {
            Ok::<(), CircuitError>(())
        } else {
            Err::<(), CircuitError>(CircuitError::Draft)
        },
{
    if has_file {
        Ok(())
    } else {
        Err(CircuitError::Draft)
    }
}

/// Whether a circuit can be given a file and saved to it: only a draft.
pub fn save_draft_to(has_file: bool) -> (allowed: Result<(), CircuitError>)
    ensures
        allowed == if has_file {
            Err::<(), CircuitError>(CircuitError::NotDraft)
        } else {
            Ok::<(), CircuitError>(())
        },
{
    if has_file {
        Err(CircuitError::NotDraft)
    } else {
        Ok(())
    }
}

/// Whether a circuit counts as modified: its text has changed, and it is not
/// being loaded or saved at the moment.
pub fn is_modified(text_modified: bool, is_busy: bool) -> (modified: bool)
    ensures
        modified == (text_modified && !is_busy),
{
    text_modified && !is_busy
}

/// Whether a transfer that has moved `current_n_bytes` of `total_n_bytes`
/// counts as done: when there is nothing to move, or more has been moved
/// than was announced. Otherwise the progress is the one divided by the
/// other.
pub fn is_full_progress(current_n_bytes: i64, total_n_bytes: i64) -> (full: bool)
    ensures
        full == (total_n_bytes == 0 || current_n_bytes > total_n_bytes),
{
    total_n_bytes == 0 || current_n_bytes > total_n_bytes
}

/// The file name proposed for a circuit with the title `title`.
pub fn initial_name(title: &str) -> (name: String)
    ensures
        name@ == title@ + ".cir"@,
{
    title.to_owned().concat(".cir")
}

/// What the user chose in the dialog about unsaved changes.
#[derive(Debug, Clone, Copy, PartialEq, Eq, Structural)]
pub enum SaveChoice {
    /// Go back; the operation that asked is given up.
    Cancel,
    /// Go on and lose the changes.
    Discard,
    /// Save the changes, then go on.
    Save,
}

/// The choice that the response `id` of the dialog stands for, if any.
pub open spec fn choice_of(id: Seq<char>) -> Option<SaveChoice> {
    if id == "cancel"@ {
        Some(SaveChoice::Cancel)
    } else if id == "discard"@ {
        Some(SaveChoice::Discard)
    } else if id == "save"@ {
        Some(SaveChoice::Save)
    } else {
        None
    }
}

impl SaveChoice {
    /// The response of the dialog that stands for this choice.
    pub fn id(&self) -> (id: &'static str)
        ensures
            choice_of(id@) == Some(*self),
    {
        proof {
            reveal_strlit("cancel");
            reveal_strlit("discard");
            reveal_strlit("save");
            assert("discard"@ != "cancel"@) by {
                assert("discard"@.len() != "cancel"@.len());
            }
            assert("save"@ != "cancel"@) by {
                assert("save"@.len() != "cancel"@.len());
            }
            assert("save"@ != "discard"@) by {
                assert("save"@.len() != "discard"@.len());
            }
        }
        match self {
            SaveChoice::Cancel => "cancel",
            SaveChoice::Discard => "discard",
            SaveChoice::Save => "save",
        }
    }

    /// Reads the response `id` of the dialog.
    pub fn parse(id: &str) -> (choice: Option<SaveChoice>)
        ensures
            choice == choice_of(id@),
    {
        let len = id.unicode_len();
        assert(id@.subrange(0, len as int) =~= id@);
        if range_equals(id, 0, len, "cancel") {
            Some(SaveChoice::Cancel)
        } else if range_equals(id, 0, len, "discard") {
            Some(SaveChoice::Discard)
        } else if range_equals(id, 0, len, "save") {
            Some(SaveChoice::Save)
        } else {
            None
        }
    }
}

/// Whether a failure to deal with unsaved changes is told to the user: not
/// when the user cancelled the question or dismissed a dialog.
pub fn reports_failure(cancelled: bool, dismissed: bool) -> (report: bool)
    ensures
        report == (!cancelled && !dismissed),
{
    !cancelled && !dismissed
}

} // verus!
