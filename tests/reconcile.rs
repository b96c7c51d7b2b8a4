use ficwright::autocomplete::{chip_name_from_markup, chips_named, reconcile_plan, TagPlan};
use indexmap::IndexSet;

fn strings(items: &[&str]) -> Vec<String> {
    items.iter().map(|s| s.to_string()).collect()
}

fn set(items: &[&str]) -> IndexSet<String> {
    items.iter().map(|s| s.to_string()).collect()
}

/// The committed list after carrying out a plan on the page.
fn apply(current: &[String], plan: &TagPlan) -> Vec<String> {
    let mut after: Vec<String> = current
        .iter()
        .filter(|c| !plan.remove.contains(c))
        .cloned()
        .collect();
    after.extend(plan.add.iter().cloned());
    after
}

#[test]
fn reconcile_removes_stale_and_adds_missing_fandom() {
    let current = strings(&["Beta", "Gamma"]);
    let desired = set(&["Alpha", "Beta"]);
    let plan = reconcile_plan(&current, &desired);
    assert_eq!(plan.remove, strings(&["Gamma"]));
    assert_eq!(plan.add, strings(&["Alpha"]));
    let after: IndexSet<String> = apply(&current, &plan).into_iter().collect();
    assert_eq!(after, set(&["Alpha", "Beta"]));
}

#[test]
fn reconcile_twice_is_a_noop_the_second_time() {
    let current = strings(&["x", "y", "z"]);
    let desired = set(&["z", "w", "v"]);
    let first = reconcile_plan(&current, &desired);
    let after = apply(&current, &first);
    let as_set: std::collections::HashSet<String> = after.iter().cloned().collect();
    let wanted: std::collections::HashSet<String> = desired.iter().cloned().collect();
    assert_eq!(as_set, wanted);
    let second = reconcile_plan(&after, &desired);
    assert!(second.is_noop());
    assert!(second.remove.is_empty());
    assert!(second.add.is_empty());
}

#[test]
fn reconcile_touches_only_the_difference() {
    let current = strings(&["a", "b", "c", "d"]);
    let desired = set(&["c", "e", "a", "f"]);
    let plan = reconcile_plan(&current, &desired);
    assert_eq!(plan.remove, strings(&["b", "d"]));
    assert_eq!(plan.add, strings(&["e", "f"]));
    assert!(!plan.is_noop());
}

#[test]
fn reconcile_adds_in_desired_order_onto_an_empty_list() {
    let plan = reconcile_plan(&Vec::new(), &set(&["Huey", "Dewey", "Louie"]));
    assert!(plan.remove.is_empty());
    assert_eq!(plan.add, strings(&["Huey", "Dewey", "Louie"]));
}

#[test]
fn reconcile_deletes_a_repeated_chip_once() {
    let plan = reconcile_plan(&strings(&["A", "A", "B"]), &set(&["B"]));
    assert_eq!(plan.remove, strings(&["A"]));
    assert!(plan.add.is_empty());
}

#[test]
fn reconcile_to_empty_removes_everything() {
    let plan = reconcile_plan(&strings(&["Jo"]), &IndexSet::new());
    assert_eq!(plan.remove, strings(&["Jo"]));
    assert!(plan.add.is_empty());
}

#[test]
fn chip_name_is_text_before_delete_control() {
    let markup =
        "Bleach (Anime &amp; Manga) <span class=\"delete\"><a href=\"#\">\u{d7}</a></span>";
    assert_eq!(chip_name_from_markup(markup), "Bleach (Anime &amp; Manga)");
}

#[test]
fn chip_name_of_unexpected_markup_is_empty() {
    assert_eq!(chip_name_from_markup("<span>odd</span>"), "");
    assert_eq!(chip_name_from_markup(""), "");
}

#[test]
fn chips_named_finds_every_chip_with_the_name() {
    let names = strings(&["a", "b", "a", "c"]);
    assert_eq!(chips_named(&names, &"a".to_string()), vec![0, 2]);
    assert_eq!(chips_named(&names, &"z".to_string()), Vec::<usize>::new());
}
