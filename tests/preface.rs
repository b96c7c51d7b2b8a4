use ficwright::preface::{plan_coauthors, plan_note, GateStep};
use indexmap::IndexSet;

fn authors(names: &[&str]) -> IndexSet<String> {
    names.iter().map(|s| s.to_string()).collect()
}

#[test]
fn new_note_opens_its_field_first() {
    assert_eq!(
        plan_note(false, &Some("Thanks!".to_string())),
        vec![GateStep::SetGate(true), GateStep::TypeNote]
    );
}

#[test]
fn changed_note_is_cleared_then_typed() {
    assert_eq!(
        plan_note(true, &Some("Thanks!".to_string())),
        vec![GateStep::ClearText, GateStep::TypeNote]
    );
}

#[test]
fn removed_note_is_cleared_then_closed() {
    assert_eq!(plan_note(true, &None), vec![GateStep::ClearText, GateStep::SetGate(false)]);
}

#[test]
fn absent_note_on_closed_field_does_nothing() {
    assert_eq!(plan_note(false, &None), Vec::<GateStep>::new());
}

#[test]
fn first_coauthor_checks_the_box_before_adding() {
    assert_eq!(plan_coauthors(false, &authors(&["Jo"])), vec![GateStep::SetGate(true), GateStep::ReconcileEntries]);
}

#[test]
fn last_coauthor_removed_then_box_unchecked() {
    assert_eq!(plan_coauthors(true, &authors(&[])), vec![GateStep::ClearEntries, GateStep::SetGate(false)]);
}

#[test]
fn coauthors_on_open_field_are_reconciled() {
    assert_eq!(plan_coauthors(true, &authors(&["Jo", "Sam"])), vec![GateStep::ReconcileEntries]);
    assert_eq!(plan_coauthors(false, &authors(&[])), Vec::<GateStep>::new());
}
