//! Fields of the preface that hide behind a presence checkbox: the start and
//! end notes, and the co-author list.
use vstd::prelude::*;
use indexmap::IndexSet;
use crate::ordered_set::{ordered_items, ordered_set_len};

verus! {

/// One step of bringing a gated field to its desired content.
#[derive(Debug, Clone, Copy, PartialEq, Eq, Structural)]
pub enum GateStep {
    /// Set the presence checkbox to the given state.
    SetGate(bool),
    /// Clear the gated text field.
    ClearText,
    /// Type the desired note into the gated text field.
    TypeNote,
    /// Delete every committed entry of the gated list.
    ClearEntries,
    /// Reconcile the gated list toward the desired entries.
    ReconcileEntries,
}

/// The steps that bring a gated note to `wanted` (`None`: no note), given
/// whether its checkbox is currently checked.
pub open spec fn note_steps(gate_open: bool, wanted: bool) -> Seq<GateStep> {
    if !wanted && gate_open {
        seq![GateStep::ClearText, GateStep::SetGate(false)]
    } else if wanted && gate_open {
        seq![GateStep::ClearText, GateStep::TypeNote]
    } else if wanted {
        seq![GateStep::SetGate(true), GateStep::TypeNote]
    } else {
        seq![]
    }
}

/// The steps that bring the co-author list to the desired entries, given
/// whether the "has co-authors" checkbox is checked.
pub open spec fn coauthor_steps(gate_open: bool, any_wanted: bool) -> Seq<GateStep> {
    if !any_wanted && gate_open {
        seq![GateStep::ClearEntries, GateStep::SetGate(false)]
    } else if any_wanted && !gate_open {
        seq![GateStep::SetGate(true), GateStep::ReconcileEntries]
    } else if any_wanted {
        seq![GateStep::ReconcileEntries]
    } else {
        seq![]
    }
}

/// Plans a start or end note: an open field is cleared first; a note to write
/// opens a closed field first; a field with no note wanted is closed after
/// its text is cleared.
pub fn plan_note(gate_open: bool, note: &Option<String>) -> (r: Vec<GateStep>)
    ensures
        r@ == note_steps(gate_open, note is Some),
{
    let mut r: Vec<GateStep> = Vec::new();
    match note {
        None => {
            if gate_open {
                r.push(GateStep::ClearText);
                r.push(GateStep::SetGate(false));
            }
        },
        Some(_) => {
            if gate_open {
                r.push(GateStep::ClearText);
            } else {
                r.push(GateStep::SetGate(true));
            }
            r.push(GateStep::TypeNote);
        },
    }
    assert(r@ =~= note_steps(gate_open, note is Some));
    r
}

/// Plans the co-author list: the checkbox is checked before the first entry
/// is added, and unchecked after the last one is removed.
pub fn plan_coauthors(gate_open: bool, authors: &IndexSet<String>) -> (r: Vec<GateStep>)
    ensures
        r@ == coauthor_steps(gate_open, ordered_items(*authors).len() > 0),
{
    let wanted_count = ordered_set_len(authors);
    let mut r: Vec<GateStep> = Vec::new();
    if wanted_count == 0 {
        if gate_open {
            r.push(GateStep::ClearEntries);
            r.push(GateStep::SetGate(false));
        }
    } else {
        if !gate_open {
            r.push(GateStep::SetGate(true));
        }
        r.push(GateStep::ReconcileEntries);
    }
    assert(r@ =~= coauthor_steps(gate_open, ordered_items(*authors).len() > 0));
    r
}

/// Whether a gated field's steps leave its checkbox open.
pub open spec fn gate_after(gate_open: bool, steps: Seq<GateStep>) -> bool
    decreases steps.len(),
{
    if steps.len() == 0 {
        gate_open
    } else {
        match steps.last() {
            GateStep::SetGate(b) => b,
            _ => gate_after(gate_open, steps.drop_last()),
        }
    }
}

/// After its steps a gated field is open exactly when content is wanted, and
/// content is only ever written or reconciled while the field is open.
pub proof fn lemma_gate_follows_content(gate_open: bool, wanted: bool)
    ensures
        gate_after(gate_open, note_steps(gate_open, wanted)) == wanted,
        gate_after(gate_open, coauthor_steps(gate_open, wanted)) == wanted,
        forall|k: int|
            0 <= k < note_steps(gate_open, wanted).len() && #[trigger] note_steps(gate_open, wanted)[k]
                == GateStep::TypeNote ==> gate_after(gate_open, note_steps(gate_open, wanted).take(k)),
        forall|k: int|
            0 <= k < coauthor_steps(gate_open, wanted).len() && #[trigger] coauthor_steps(gate_open, wanted)[k]
                == GateStep::ReconcileEntries ==> gate_after(gate_open, coauthor_steps(gate_open, wanted).take(k)),
{
    reveal_with_fuel(gate_after, 3);
    let n = note_steps(gate_open, wanted);
    let c = coauthor_steps(gate_open, wanted);
    assert(n.len() == 0 || n.len() == 2);
    if n.len() == 2 {
        assert(n.drop_last().drop_last() =~= seq![]);
        assert(n.take(1) =~= n.drop_last());
        assert(n.take(0) =~= seq![]);
    }
    if c.len() == 2 {
        assert(c.drop_last().drop_last() =~= seq![]);
        assert(c.take(1) =~= c.drop_last());
        assert(c.take(0) =~= seq![]);
    }
    if c.len() == 1 {
        assert(c.drop_last() =~= seq![]);
        assert(c.take(0) =~= seq![]);
    }
}

} // verus!
