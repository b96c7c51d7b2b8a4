use ficwright::model::{ArchiveWarning, FicCategory};
use ficwright::widgets::{
    blink_targets, category_checkbox_values, click_needed, effective_warnings, group_clicks,
    index_of_value, option_index_by_value, selected_value, targets_for_values, uniform_targets,
    warning_checkbox_values, CheckboxState, DropdownOption,
};

const SENTINEL: &str = "Chose Not To Use Archive Warnings";

fn warning_boxes(checked: &[bool]) -> Vec<CheckboxState> {
    let values = [
        SENTINEL,
        "Graphic Depictions Of Violence",
        "Major Character Death",
        "No Archive Warnings Apply",
        "Rape/Non-Con",
        "Underage Sex",
    ];
    values
        .iter()
        .zip(checked)
        .map(|(v, c)| CheckboxState { value: v.to_string(), checked: *c, clickable: true })
        .collect()
}

fn after(boxes: &[CheckboxState], clicks: &[usize]) -> Vec<bool> {
    boxes
        .iter()
        .enumerate()
        .map(|(i, b)| if clicks.contains(&i) { !b.checked } else { b.checked })
        .collect()
}

#[test]
fn checkbox_already_set_takes_no_click() {
    assert!(!click_needed(true, true, true));
    assert!(!click_needed(true, false, false));
}

#[test]
fn checkbox_in_other_state_takes_one_click() {
    assert!(click_needed(true, false, true));
    assert!(click_needed(true, true, false));
}

#[test]
fn checkbox_that_cannot_be_clicked_is_left_alone() {
    assert!(!click_needed(false, false, true));
}

#[test]
fn blink_flips_three_times_then_restores() {
    assert_eq!(blink_targets(true), vec![false, true, false, true]);
    assert_eq!(blink_targets(false), vec![true, false, true, false]);
}

#[test]
fn no_warnings_checks_the_sentinel_alone() {
    let boxes = warning_boxes(&[false, true, false, true, false, false]);
    let wanted = warning_checkbox_values(&Vec::new());
    assert_eq!(wanted, vec![SENTINEL.to_string()]);
    let targets = targets_for_values(&boxes, &wanted);
    let clicks = group_clicks(&boxes, &targets);
    assert_eq!(clicks, vec![0, 1, 3]);
    assert_eq!(after(&boxes, &clicks), vec![true, false, false, false, false, false]);
}

#[test]
fn chosen_warnings_are_checked_and_the_sentinel_cleared() {
    let boxes = warning_boxes(&[true, false, false, false, false, true]);
    let warnings = vec![ArchiveWarning::Violence, ArchiveWarning::MCDeath];
    let wanted = warning_checkbox_values(&warnings);
    let targets = targets_for_values(&boxes, &wanted);
    let clicks = group_clicks(&boxes, &targets);
    assert_eq!(after(&boxes, &clicks), vec![false, true, true, false, false, false]);
}

#[test]
fn group_skips_members_that_cannot_be_clicked() {
    let mut boxes = warning_boxes(&[true, false, false, false, false, false]);
    boxes[0].clickable = false;
    let targets = uniform_targets(&boxes, false);
    assert_eq!(targets, vec![false; 6]);
    assert_eq!(group_clicks(&boxes, &targets), Vec::<usize>::new());
}

#[test]
fn effective_warnings_default_to_the_sentinel() {
    assert_eq!(effective_warnings(&Vec::new()), vec![ArchiveWarning::CNTUAW]);
    assert_eq!(effective_warnings(&vec![ArchiveWarning::NA]), vec![ArchiveWarning::NA]);
}

#[test]
fn category_values_follow_the_table() {
    let values = category_checkbox_values(&vec![FicCategory::FF, FicCategory::Gen]);
    assert_eq!(values, vec!["F/F".to_string(), "Gen".to_string()]);
}

#[test]
fn selected_value_reads_the_first_selected_option() {
    let options = vec![
        DropdownOption { value: Some("Not Rated".to_string()), selected: false },
        DropdownOption { value: None, selected: true },
        DropdownOption { value: Some("Mature".to_string()), selected: true },
    ];
    assert_eq!(selected_value(&options), Some(String::new()));
    assert_eq!(selected_value(&options[2..].to_vec()), Some("Mature".to_string()));
    assert_eq!(selected_value(&options[..1].to_vec()), None);
}

#[test]
fn option_lookup_by_value_ignores_options_without_one() {
    let values = vec![None, Some("General Audiences".to_string()), Some("Explicit".to_string())];
    assert_eq!(option_index_by_value(&values, &"Explicit".to_string()), Some(2));
    assert_eq!(option_index_by_value(&values, &"".to_string()), None);
    assert_eq!(option_index_by_value(&values, &"Mature".to_string()), None);
}

#[test]
fn index_of_value_finds_the_first_match() {
    let items = vec!["a".to_string(), "b".to_string(), "b".to_string()];
    assert_eq!(index_of_value(&items, &"b".to_string()), Some(1));
    assert_eq!(index_of_value(&items, &"c".to_string()), None);
}
