use find_empty_workspace::command::{build_command, collect_command_errors, CommandOutcome};
use find_empty_workspace::errors::ResolutionError;

fn outcome(success: bool, error: Option<&str>) -> CommandOutcome {
    CommandOutcome { success, error: error.map(String::from) }
}

#[test]
fn move_and_stay_emits_only_the_move_clause() {
    let c = build_command(true, true, &String::from("3"));
    assert_eq!(c, "move container to workspace 3;");
}

#[test]
fn neither_toggle_emits_only_the_focus_switch() {
    let c = build_command(false, false, &String::from("3"));
    assert_eq!(c, "workspace 3;");
}

#[test]
fn move_alone_emits_both_clauses_in_order() {
    let c = build_command(true, false, &String::from("www"));
    assert_eq!(c, "move container to workspace www;workspace www;");
}

#[test]
fn stay_alone_is_a_noop() {
    let c = build_command(false, true, &String::from("3"));
    assert_eq!(c, "");
}

#[test]
fn all_acknowledgements_ok_is_a_success() {
    let outcomes = vec![outcome(true, None), outcome(true, None)];
    assert_eq!(collect_command_errors(&outcomes), Ok(()));
    assert_eq!(collect_command_errors(&Vec::new()), Ok(()));
}

#[test]
fn one_failure_surfaces_its_text() {
    let outcomes = vec![outcome(true, None), outcome(false, Some("unknown workspace"))];
    assert_eq!(
        collect_command_errors(&outcomes),
        Err(ResolutionError::CommandRejected(String::from("unknown workspace")))
    );
}

#[test]
fn several_failures_are_joined_with_newlines() {
    let outcomes = vec![
        outcome(false, Some("first")),
        outcome(true, None),
        outcome(false, Some("second")),
    ];
    assert_eq!(
        collect_command_errors(&outcomes),
        Err(ResolutionError::CommandRejected(String::from("first\nsecond")))
    );
}

#[test]
fn a_failure_without_text_contributes_nothing() {
    let outcomes = vec![outcome(false, None)];
    assert_eq!(collect_command_errors(&outcomes), Ok(()));
    let mixed = vec![outcome(false, None), outcome(false, Some("only this"))];
    assert_eq!(
        collect_command_errors(&mixed),
        Err(ResolutionError::CommandRejected(String::from("only this")))
    );
}

#[test]
fn a_successful_acknowledgement_with_text_contributes_nothing() {
    let outcomes = vec![outcome(true, Some("ignored")), outcome(false, Some("kept"))];
    assert_eq!(
        collect_command_errors(&outcomes),
        Err(ResolutionError::CommandRejected(String::from("kept")))
    );
}
