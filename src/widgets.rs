//! Decisions for the single-valued widgets: checkboxes, checkbox groups keyed
//! by value, and drop-down selectors.
use vstd::prelude::*;
use crate::model::{ArchiveWarning, FicCategory, UseByValue};
use crate::ordered_set::views;

verus! {

/// Whether setting a checkbox to `target` takes a click: only a control that
/// can be clicked and shows the other state is clicked.
pub open spec fn needs_click(clickable: bool, checked: bool, target: bool) -> bool {
    clickable && checked != target
}

/// The state a checkbox shows after it was set to `target`.
pub open spec fn checked_after(clickable: bool, checked: bool, target: bool) -> bool {
    if needs_click(clickable, checked, target) {
        !checked
    } else {
        checked
    }
}

/// Decides whether `Checkbox::set(target)` clicks the control.
pub fn click_needed(clickable: bool, checked: bool, target: bool) -> (r: bool)
    ensures
        r == needs_click(clickable, checked, target),
{
    clickable && checked != target
}

/// Setting a checkbox that already shows the target takes no click, and setting
/// it a second time to the same target takes no click either.
pub proof fn lemma_checkbox_set_idempotent(clickable: bool, checked: bool, target: bool)
    ensures
        !needs_click(clickable, target, target),
        !needs_click(clickable, checked_after(clickable, checked, target), target),
        clickable ==> checked_after(clickable, checked, target) == target,
{
}

/// The states a checkbox shows while it blinks: three flips away from and back
/// to `current`, then `current` itself.
pub fn blink_targets(current: bool) -> (r: Vec<bool>)
    ensures
        r@ == seq![!current, current, !current, current],
{
    let mut r: Vec<bool> = Vec::new();
    let mut x = !current;
    let mut k: usize = 0;
    while k < 3
        invariant
            k <= 3,
            r@.len() == k,
            forall|j: int| 0 <= j < k ==> r@[j] == (if j % 2 == 0 { !current } else { current }),
            x == (if k % 2 == 0 { !current } else { current }),
        decreases 3 - k,
    {
        r.push(x);
        x = !x;
        k = k + 1;
    }
    r.push(current);
    assert(r@ =~= seq![!current, current, !current, current]);
    r
}

/// What the page shows of one member of a checkbox group.
#[derive(Debug, Clone)]
pub struct CheckboxState {
    pub value: String,
    pub checked: bool,
    pub clickable: bool,
}

/// The state of each member of a group after each was set to its target.
pub open spec fn group_after(boxes: Seq<CheckboxState>, targets: Seq<bool>) -> Seq<bool> {
    Seq::new(boxes.len(), |i: int| checked_after(boxes[i].clickable, boxes[i].checked, targets[i]))
}

/// The target of each member: checked exactly when its value is wanted.
pub open spec fn group_targets(boxes: Seq<CheckboxState>, wanted: Seq<Seq<char>>) -> Seq<bool> {
    Seq::new(boxes.len(), |i: int| wanted.contains(boxes[i].value@))
}

/// Computes the target of each member of a group from the wanted values.
pub fn targets_for_values(boxes: &Vec<CheckboxState>, wanted: &Vec<String>) -> (r: Vec<bool>)
    ensures
        r@ == group_targets(boxes@, views(wanted@)),
{
    let mut r: Vec<bool> = Vec::new();
    let mut i: usize = 0;
    while i < boxes.len()
        invariant
            i <= boxes.len(),
            r@ == group_targets(boxes@.subrange(0, i as int), views(wanted@)),
        decreases boxes.len() - i,
    {
        let found = index_of_value(wanted, &boxes[i].value);
        let hit = found.is_some();
        proof {
            if let Some(k) = found {
                assert(views(wanted@)[k as int] == boxes[i as int].value@);
            }
        }
        r.push(hit);
        assert(boxes@.subrange(0, i as int + 1) == boxes@.subrange(0, i as int).push(boxes@[i as int]));
        i = i + 1;
        assert(r@ =~= group_targets(boxes@.subrange(0, i as int), views(wanted@)));
    }
    assert(boxes@.subrange(0, boxes.len() as int) == boxes@);
    r
}

/// The indices of the members that must be clicked so that every member that
/// can be clicked shows its target; in increasing order.
pub fn group_clicks(boxes: &Vec<CheckboxState>, targets: &Vec<bool>) -> (r: Vec<usize>)
    requires
        boxes.len() == targets.len(),
    ensures
        forall|k: int| 0 <= k < r.len() ==> r[k] < boxes.len(),
        forall|k: int, l: int| 0 <= k < l < r.len() ==> r[k] < r[l],
        forall|i: int|
            0 <= i < boxes.len() ==> (r@.contains(i as usize) <==> needs_click(
                boxes[i].clickable,
                boxes[i].checked,
                targets[i],
            )),
{
    let mut r: Vec<usize> = Vec::new();
    let mut i: usize = 0;
    while i < boxes.len()
        invariant
            i <= boxes.len(),
            boxes.len() == targets.len(),
            forall|k: int| 0 <= k < r.len() ==> r[k] < i,
            forall|k: int, l: int| 0 <= k < l < r.len() ==> r[k] < r[l],
            forall|j: int|
                0 <= j < i ==> (r@.contains(j as usize) <==> needs_click(
                    boxes[j].clickable,
                    boxes[j].checked,
                    targets[j],
                )),
        decreases boxes.len() - i,
    {
        let ghost old_r = r@;
        let b = &boxes[i];
        if click_needed(b.clickable, b.checked, targets[i]) {
            r.push(i);
            assert(r@[r.len() - 1] == i);
            assert(r@ == old_r.push(i));
        }
        assert forall|j: int| 0 <= j <= i implies (r@.contains(j as usize) <==> needs_click(
            boxes[j].clickable,
            boxes[j].checked,
            targets[j],
        )) by {
            if r@.contains(j as usize) {
                let k = choose|k: int| 0 <= k < r.len() && r[k] == j as usize;
                if k < old_r.len() {
                    assert(old_r[k] == j as usize);
                }
            }
            if j < i && old_r.contains(j as usize) {
                let k = choose|k: int| 0 <= k < old_r.len() && old_r[k] == j as usize;
                assert(r@[k] == j as usize);
            }
        }
        i = i + 1;
    }
    r
}

/// The same target for every member of a group.
pub fn uniform_targets(boxes: &Vec<CheckboxState>, state: bool) -> (r: Vec<bool>)
    ensures
        r@ == Seq::new(boxes@.len(), |i: int| state),
{
    let mut r: Vec<bool> = Vec::new();
    let mut i: usize = 0;
    while i < boxes.len()
        invariant
            i <= boxes.len(),
            r@ == Seq::new(i as nat, |j: int| state),
        decreases boxes.len() - i,
    {
        r.push(state);
        i = i + 1;
        assert(r@ =~= Seq::new(i as nat, |j: int| state));
    }
    r
}

/// The first position of `wanted` among `items`.
pub fn index_of_value(items: &Vec<String>, wanted: &String) -> (r: Option<usize>)
    ensures
        match r {
            Some(i) => i < items.len() && items[i as int]@ == wanted@ && forall|j: int|
                0 <= j < i ==> items[j]@ != wanted@,
            None => !views(items@).contains(wanted@),
        },
{
    let mut i: usize = 0;
    while i < items.len()
        invariant
            i <= items.len(),
            forall|j: int| 0 <= j < i ==> items[j]@ != wanted@,
        decreases items.len() - i,
    {
        if items[i] == *wanted {
            return Some(i);
        }
        i = i + 1;
    }
    assert forall|j: int| 0 <= j < views(items@).len() implies views(items@)[j] != wanted@ by {
        assert(views(items@)[j] == items[j]@);
    }
    None
}

/// The attribute values that the warnings group should have checked: the
/// sentinel alone when no warning is chosen.
pub open spec fn warning_values(warnings: Seq<ArchiveWarning>) -> Seq<Seq<char>> {
    if warnings.len() == 0 {
        seq![ArchiveWarning::CNTUAW.spec_value()]
    } else {
        warnings.map_values(|w: ArchiveWarning| w.spec_value())
    }
}

/// The warnings to assert: the chosen ones, or the sentinel when none is chosen.
pub fn effective_warnings(warnings: &Vec<ArchiveWarning>) -> (r: Vec<ArchiveWarning>)
    ensures
        r@ == (if warnings@.len() == 0 {
            seq![ArchiveWarning::CNTUAW]
        } else {
            warnings@
        }),
{
    if warnings.len() == 0 {
        let mut r: Vec<ArchiveWarning> = Vec::new();
        r.push(ArchiveWarning::CNTUAW);
        assert(r@ =~= seq![ArchiveWarning::CNTUAW]);
        r
    } else {
        warnings.clone()
    }
}

/// Computes the values that the warnings group should have checked.
pub fn warning_checkbox_values(warnings: &Vec<ArchiveWarning>) -> (r: Vec<String>)
    ensures
        views(r@) == warning_values(warnings@),
{
    let chosen = effective_warnings(warnings);
    let mut r: Vec<String> = Vec::new();
    let mut i: usize = 0;
    while i < chosen.len()
        invariant
            i <= chosen.len(),
            views(r@) == chosen@.subrange(0, i as int).map_values(|w: ArchiveWarning| w.spec_value()),
        decreases chosen.len() - i,
    {
        let v = chosen[i].as_value();
        let ghost old_r = r@;
        r.push(v);
        assert(chosen@.subrange(0, i as int + 1) == chosen@.subrange(0, i as int).push(chosen@[i as int]));
        assert(r@ == old_r.push(v));
        assert(views(r@) =~= views(old_r).push(v@));
        i = i + 1;
        assert(views(r@) =~= chosen@.subrange(0, i as int).map_values(|w: ArchiveWarning| w.spec_value()));
    }
    assert(chosen@.subrange(0, chosen.len() as int) == chosen@);
    assert(views(r@) =~= warning_values(warnings@));
    r
}

/// Computes the values that the categories group should have checked.
pub fn category_checkbox_values(categories: &Vec<FicCategory>) -> (r: Vec<String>)
    ensures
        views(r@) == categories@.map_values(|c: FicCategory| c.spec_value()),
{
    let mut r: Vec<String> = Vec::new();
    let mut i: usize = 0;
    while i < categories.len()
        invariant
            i <= categories.len(),
            views(r@) == categories@.subrange(0, i as int).map_values(|c: FicCategory| c.spec_value()),
        decreases categories.len() - i,
    {
        let v = categories[i].as_value();
        let ghost old_r = r@;
        r.push(v);
        assert(categories@.subrange(0, i as int + 1) == categories@.subrange(0, i as int).push(categories@[i as int]));
        assert(r@ == old_r.push(v));
        assert(views(r@) =~= views(old_r).push(v@));
        i = i + 1;
        assert(views(r@) =~= categories@.subrange(0, i as int).map_values(|c: FicCategory| c.spec_value()));
    }
    assert(categories@.subrange(0, categories.len() as int) == categories@);
    r
}

/// Only the sentinel warning has the sentinel's value.
pub proof fn lemma_sentinel_value_unique(w: ArchiveWarning)
    ensures
        w != ArchiveWarning::CNTUAW ==> w.spec_value() != ArchiveWarning::CNTUAW.spec_value(),
{
    reveal_strlit("Chose Not To Use Archive Warnings");
    reveal_strlit("Graphic Depictions Of Violence");
    reveal_strlit("Major Character Death");
    reveal_strlit("No Archive Warnings Apply");
    reveal_strlit("Rape/Non-Con");
    reveal_strlit("Underage Sex");
    assert(ArchiveWarning::CNTUAW.spec_value().len() == 33);
    if w != ArchiveWarning::CNTUAW {
        assert(w.spec_value().len() < 33);
    }
}

/// Reconciling the warnings group leaves every member that can be clicked
/// checked exactly when it is wanted: with no warning chosen, the sentinel
/// alone; otherwise exactly the chosen warnings, and the sentinel unchecked
/// when it is not among them.
pub proof fn lemma_warnings_reconciled(boxes: Seq<CheckboxState>, warnings: Seq<ArchiveWarning>)
    ensures
        ({
            let after = group_after(boxes, group_targets(boxes, warning_values(warnings)));
            &&& after.len() == boxes.len()
            &&& forall|i: int|
                0 <= i < boxes.len() && !boxes[i].clickable ==> after[i] == boxes[i].checked
            &&& warnings.len() == 0 ==> forall|i: int|
                0 <= i < boxes.len() && boxes[i].clickable ==> (after[i] <==> boxes[i].value@
                    == ArchiveWarning::CNTUAW.spec_value())
            &&& warnings.len() > 0 ==> forall|i: int|
                0 <= i < boxes.len() && boxes[i].clickable ==> (after[i] <==> exists|k: int|
                    0 <= k < warnings.len() && boxes[i].value@ == #[trigger] warnings[k].spec_value())
            &&& (warnings.len() > 0 && !warnings.contains(ArchiveWarning::CNTUAW)) ==> forall|i: int|
                0 <= i < boxes.len() && boxes[i].clickable && boxes[i].value@
                    == ArchiveWarning::CNTUAW.spec_value() ==> !after[i]
        }),
{
    let wanted = warning_values(warnings);
    let after = group_after(boxes, group_targets(boxes, wanted));
    if warnings.len() == 0 {
        assert forall|i: int| 0 <= i < boxes.len() && boxes[i].clickable implies (after[i]
            <==> boxes[i].value@ == ArchiveWarning::CNTUAW.spec_value()) by {
            if wanted.contains(boxes[i].value@) {
                let k = choose|k: int| 0 <= k < wanted.len() && wanted[k] == boxes[i].value@;
            }
            if boxes[i].value@ == ArchiveWarning::CNTUAW.spec_value() {
                assert(wanted[0] == boxes[i].value@);
            }
        }
    } else {
        assert forall|i: int| 0 <= i < boxes.len() && boxes[i].clickable implies (after[i]
            <==> exists|k: int| 0 <= k < warnings.len() && boxes[i].value@ == #[trigger] warnings[k].spec_value()) by {
            if wanted.contains(boxes[i].value@) {
                let k = choose|k: int| 0 <= k < wanted.len() && wanted[k] == boxes[i].value@;
                assert(boxes[i].value@ == warnings[k].spec_value());
            }
            if exists|k: int| 0 <= k < warnings.len() && boxes[i].value@ == #[trigger] warnings[k].spec_value() {
                let k = choose|k: int| 0 <= k < warnings.len() && boxes[i].value@ == #[trigger] warnings[k].spec_value();
                assert(wanted[k] == boxes[i].value@);
            }
        }
        if !warnings.contains(ArchiveWarning::CNTUAW) {
            assert forall|i: int| 0 <= i < boxes.len() && boxes[i].clickable && boxes[i].value@
                == ArchiveWarning::CNTUAW.spec_value() implies !after[i] by {
                if wanted.contains(boxes[i].value@) {
                    let k = choose|k: int| 0 <= k < wanted.len() && wanted[k] == boxes[i].value@;
                    lemma_sentinel_value_unique(warnings[k]);
                    if warnings[k] == ArchiveWarning::CNTUAW {
                        assert(warnings.contains(warnings[k]));
                    }
                }
            }
        }
    }
}

/// What the page shows of one option of a drop-down selector.
#[derive(Debug, Clone)]
pub struct DropdownOption {
    pub value: Option<String>,
    pub selected: bool,
}

/// The value attribute of an option, empty when it has none.
pub open spec fn option_value(o: DropdownOption) -> Seq<char> {
    match o.value {
        Some(v) => v@,
        None => Seq::empty(),
    }
}

/// The value of the first selected option, if any option is selected.
pub fn selected_value(options: &Vec<DropdownOption>) -> (r: Option<String>)
    ensures
        match r {
            Some(v) => exists|i: int|
                0 <= i < options.len() && options[i].selected && v@ == option_value(options[i])
                    && forall|j: int| 0 <= j < i ==> !options[j].selected,
            None => forall|i: int| 0 <= i < options.len() ==> !options[i].selected,
        },
{
    let mut i: usize = 0;
    while i < options.len()
        invariant
            i <= options.len(),
            forall|j: int| 0 <= j < i ==> !options[j].selected,
        decreases options.len() - i,
    {
        if options[i].selected {
            let v = match &options[i].value {
                Some(v) => v.clone(),
                None => String::new(),
            };
            assert(0 <= i < options.len() && options[i as int].selected && v@ == option_value(options[i as int]));
            return Some(v);
        }
        i = i + 1;
    }
    None
}

/// The first option whose value attribute is `wanted`; an option without one
/// matches nothing.
pub fn option_index_by_value(values: &Vec<Option<String>>, wanted: &String) -> (r: Option<usize>)
    ensures
        match r {
            Some(i) => i < values.len() && values[i as int] is Some && values[i as int]->0@ == wanted@
                && forall|j: int| 0 <= j < i ==> !(values[j] is Some && values[j]->0@ == wanted@),
            None => forall|j: int| 0 <= j < values.len() ==> !(values[j] is Some && values[j]->0@ == wanted@),
        },
{
    let mut i: usize = 0;
    while i < values.len()
        invariant
            i <= values.len(),
            forall|j: int| 0 <= j < i ==> !(values[j] is Some && values[j]->0@ == wanted@),
        decreases values.len() - i,
    {
        match &values[i] {
            Some(v) => {
                if *v == *wanted {
                    return Some(i);
                }
            },
            None => {},
        }
        i = i + 1;
    }
    None
}

} // verus!
