use spicy::circuit::{
    initial_name, is_full_progress, is_modified, load, reports_failure, save, save_draft_to,
    CircuitError, SaveChoice,
};

#[test]
fn only_a_circuit_with_a_file_is_loaded_or_saved() {
    assert_eq!(load(true), Ok(()));
    assert_eq!(load(false), Err(CircuitError::Draft));
    assert_eq!(save(true), Ok(()));
    assert_eq!(save(false), Err(CircuitError::Draft));
}

#[test]
fn only_a_draft_is_given_a_file() {
    assert_eq!(save_draft_to(false), Ok(()));
    assert_eq!(save_draft_to(true), Err(CircuitError::NotDraft));
}

#[test]
fn refusals_say_what_was_wrong() {
    assert_eq!(CircuitError::Draft.message(), "Circuit must not be a draft");
    assert_eq!(CircuitError::NotDraft.message(), "Circuit must be a draft");
}

#[test]
fn a_busy_circuit_does_not_count_as_modified() {
    assert!(is_modified(true, false));
    assert!(!is_modified(true, true));
    assert!(!is_modified(false, false));
    assert!(!is_modified(false, true));
}

#[test]
fn proposed_file_name_is_the_title_with_its_suffix() {
    assert_eq!(initial_name("rc filter"), "rc filter.cir");
    assert_eq!(initial_name(""), ".cir");
}

#[test]
fn dialog_responses_are_read_back_as_choices() {
    for choice in [SaveChoice::Cancel, SaveChoice::Discard, SaveChoice::Save] {
        assert_eq!(SaveChoice::parse(choice.id()), Some(choice));
    }
    assert_eq!(SaveChoice::Cancel.id(), "cancel");
    assert_eq!(SaveChoice::Discard.id(), "discard");
    assert_eq!(SaveChoice::Save.id(), "save");
    assert_eq!(SaveChoice::parse("close"), None);
    assert_eq!(SaveChoice::parse(""), None);
    assert_eq!(SaveChoice::parse("Save"), None);
    assert_eq!(SaveChoice::parse("save "), None);
}

#[test]
fn cancelled_and_dismissed_failures_are_not_reported() {
    assert!(reports_failure(false, false));
    assert!(!reports_failure(true, false));
    assert!(!reports_failure(false, true));
    assert!(!reports_failure(true, true));
}

#[test]
fn progress_is_full_when_nothing_is_left_to_move() {
    assert!(is_full_progress(0, 0));
    assert!(is_full_progress(10, 0));
    assert!(is_full_progress(11, 10));
    assert!(!is_full_progress(10, 10));
    assert!(!is_full_progress(0, 10));
    assert!(!is_full_progress(-1, 10));
    assert!(is_full_progress(-1, -2));
    assert!(!is_full_progress(-2, -1));
}
