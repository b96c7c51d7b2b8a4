//! Reconciling a tag autocomplete: a list of committed chips that can only be
//! deleted one by one or appended to.
use vstd::prelude::*;
use indexmap::IndexSet;
use crate::ordered_set::{
    distinct, lemma_distinct, ordered_items, ordered_set_difference, ordered_set_from,
    views,
};

verus! {

broadcast use vstd::seq_lib::group_filter_ensures, Seq::lemma_filter_contains_rev;

/// What a reconcile does to a tag list: delete every chip named in `remove`,
/// then type each entry of `add`, in order.
#[derive(Debug, Clone)]
pub struct TagPlan {
    pub remove: Vec<String>,
    pub add: Vec<String>,
}

impl TagPlan {
    pub open spec fn removals(&self) -> Seq<Seq<char>> {
        views(self.remove@)
    }

    pub open spec fn additions(&self) -> Seq<Seq<char>> {
        views(self.add@)
    }

    /// Whether the plan leaves the list as it is.
    pub fn is_noop(&self) -> (r: bool)
        ensures
            r == (self.remove@.len() == 0 && self.add@.len() == 0),
    {
        self.remove.len() == 0 && self.add.len() == 0
    }
}

/// The entries of `s` that `o` lacks, in the order of `s`.
pub open spec fn without(s: Seq<Seq<char>>, o: Seq<Seq<char>>) -> Seq<Seq<char>> {
    s.filter(|x: Seq<char>| !o.contains(x))
}

/// The chips to delete: each committed name that is not desired, once.
pub open spec fn tag_removals(current: Seq<Seq<char>>, desired: Seq<Seq<char>>) -> Seq<Seq<char>> {
    without(distinct(current), desired)
}

/// The entries to type: each desired name not yet committed, in desired order.
pub open spec fn tag_additions(current: Seq<Seq<char>>, desired: Seq<Seq<char>>) -> Seq<Seq<char>> {
    without(desired, current)
}

/// The committed list after deleting every chip named in `remove` and then
/// appending `add`; untouched chips keep their place.
pub open spec fn committed_after(
    current: Seq<Seq<char>>,
    remove: Seq<Seq<char>>,
    add: Seq<Seq<char>>,
) -> Seq<Seq<char>> {
    without(current, remove) + add
}

pub proof fn lemma_without(s: Seq<Seq<char>>, o: Seq<Seq<char>>)
    ensures
        forall|x: Seq<char>| #[trigger] without(s, o).contains(x) <==> (s.contains(x) && !o.contains(x)),
        s.no_duplicates() ==> without(s, o).no_duplicates(),
        without(s, o).len() <= s.len(),
    decreases s.len(),
{
    let p = |x: Seq<char>| !o.contains(x);
    reveal(Seq::filter);
    assert forall|x: Seq<char>| #[trigger] without(s, o).contains(x) <==> (s.contains(x) && !o.contains(x)) by {
        if without(s, o).contains(x) {
            s.lemma_filter_contains_rev(p, x);
            let i = choose|i: int| 0 <= i < s.filter(p).len() && s.filter(p)[i] == x;
            s.lemma_filter_pred(p, i);
        }
        if s.contains(x) && !o.contains(x) {
            let i = choose|i: int| 0 <= i < s.len() && s[i] == x;
            s.lemma_filter_contains(p, i);
        }
    }
    if s.len() > 0 {
        lemma_without(s.drop_last(), o);
        if s.no_duplicates() {
            assert(s.drop_last().no_duplicates());
            if p(s.last()) {
                let w = without(s.drop_last(), o);
                assert(!w.contains(s.last())) by {
                    if w.contains(s.last()) {
                        let j = choose|j: int| 0 <= j < s.drop_last().len() && s.drop_last()[j] == s.last();
                        assert(s[j] == s[s.len() - 1]);
                    }
                }
                assert(without(s, o) == w.push(s.last()));
            }
        }
    }
}

/// Computes which chips to delete and which entries to add so that the
/// committed list holds exactly the desired entries.
pub fn reconcile_plan(current: &Vec<String>, desired: &IndexSet<String>) -> (r: TagPlan)
    ensures
        r.removals() == tag_removals(views(current@), ordered_items(*desired)),
        r.additions() == tag_additions(views(current@), ordered_items(*desired)),
{
    let committed = ordered_set_from(current);
    let remove = ordered_set_difference(&committed, desired);
    let add = ordered_set_difference(desired, &committed);
    proof {
        let c = views(current@);
        let d = ordered_items(*desired);
        lemma_distinct(c);
        let p = |x: Seq<char>| !distinct(c).contains(x);
        let q = |x: Seq<char>| !c.contains(x);
        assert(p =~= q);
    }
    TagPlan { remove, add }
}

/// Reconciling toward `desired` brings the committed entries to exactly the
/// desired ones, and reconciling again toward the same entries then plans
/// nothing.
pub proof fn lemma_reconcile_idempotent(current: Seq<Seq<char>>, desired: Seq<Seq<char>>)
    ensures
        ({
            let after = committed_after(
                current,
                tag_removals(current, desired),
                tag_additions(current, desired),
            );
            &&& after.to_set() == desired.to_set()
            &&& tag_removals(after, desired).len() == 0
            &&& tag_additions(after, desired).len() == 0
        }),
{
    let rm = tag_removals(current, desired);
    let ad = tag_additions(current, desired);
    let kept = without(current, rm);
    let after = kept + ad;
    lemma_distinct(current);
    lemma_without(distinct(current), desired);
    lemma_without(desired, current);
    lemma_without(current, rm);
    assert forall|x: Seq<char>| after.contains(x) <==> desired.contains(x) by {
        if kept.contains(x) {
            let i = choose|i: int| 0 <= i < kept.len() && kept[i] == x;
            assert(after[i] == x);
        }
        if ad.contains(x) {
            let i = choose|i: int| 0 <= i < ad.len() && ad[i] == x;
            assert(after[kept.len() + i] == x);
        }
        if after.contains(x) {
            let i = choose|i: int| 0 <= i < after.len() && after[i] == x;
            if i < kept.len() {
                assert(kept[i] == x);
            } else {
                assert(ad[i - kept.len()] == x);
            }
        }
    }
    assert(after.to_set() =~= desired.to_set());
    lemma_distinct(after);
    lemma_without(distinct(after), desired);
    lemma_without(desired, after);
    if tag_removals(after, desired).len() > 0 {
        assert(tag_removals(after, desired).contains(tag_removals(after, desired)[0]));
    }
    if tag_additions(after, desired).len() > 0 {
        assert(tag_additions(after, desired).contains(tag_additions(after, desired)[0]));
    }
}

/// A reconcile deletes exactly the names committed but not desired and adds
/// exactly the names desired but not committed, each once; a name both
/// committed and desired is neither deleted nor added.
pub proof fn lemma_reconcile_minimal(current: Seq<Seq<char>>, desired: Seq<Seq<char>>)
    requires
        desired.no_duplicates(),
    ensures
        tag_removals(current, desired).len() == current.to_set().difference(desired.to_set()).len(),
        tag_additions(current, desired).len() == desired.to_set().difference(current.to_set()).len(),
        tag_removals(current, desired).to_set() == current.to_set().difference(desired.to_set()),
        tag_additions(current, desired).to_set() == desired.to_set().difference(current.to_set()),
        forall|x: Seq<char>|
            current.contains(x) && desired.contains(x) ==> !tag_removals(current, desired).contains(x)
                && !tag_additions(current, desired).contains(x),
{
    let rm = tag_removals(current, desired);
    let ad = tag_additions(current, desired);
    lemma_distinct(current);
    lemma_without(distinct(current), desired);
    lemma_without(desired, current);
    assert(rm.to_set() =~= current.to_set().difference(desired.to_set()));
    assert(ad.to_set() =~= desired.to_set().difference(current.to_set()));
    rm.unique_seq_to_set();
    ad.unique_seq_to_set();
}

/// The text of capture group 1 of the leftmost match of `pattern` in `text`;
/// `None` when the pattern does not compile, nothing matches, or the group
/// took no part in the match.
pub uninterp spec fn first_group(pattern: Seq<char>, text: Seq<char>) -> Option<Seq<char>>;

/// Relies on `regex::Regex::new`, `Regex::captures` and `Captures::get`: the
/// first capture group of the leftmost match.
#[verifier::external_body]
fn regex_first_group(pattern: &str, text: &str) -> (r: Option<String>)
    ensures
        match r {
            Some(g) => first_group(pattern@, text@) == Some(g@),
            None => first_group(pattern@, text@) is None,
        },
{
    let re = regex::Regex::new(pattern).ok()?;
    re.captures(text)?.get(1).map(|m| m.as_str().to_string())
}

/// A committed chip renders as its name, blanks, and then its delete control.
pub open spec fn chip_pattern() -> Seq<char> {
    "(.*)\\s+<span class=\"delete\">"@
}

/// The name of a chip, read from its rendered markup: the text before the
/// delete control, or nothing when the markup does not have that shape.
pub open spec fn chip_name(markup: Seq<char>) -> Seq<char> {
    match first_group(chip_pattern(), markup) {
        Some(g) => g,
        None => Seq::empty(),
    }
}

/// Reads a chip's name from its rendered markup.
pub fn chip_name_from_markup(markup: &str) -> (r: String)
    ensures
        r@ == chip_name(markup@),
{
    match regex_first_group("(.*)\\s+<span class=\"delete\">", markup) {
        Some(g) => g,
        None => String::new(),
    }
}

/// The positions of the chips named `name`: deleting an entry deletes every
/// chip that carries its name.
pub fn chips_named(names: &Vec<String>, name: &String) -> (r: Vec<usize>)
    ensures
        forall|k: int| 0 <= k < r.len() ==> r[k] < names.len(),
        forall|k: int, l: int| 0 <= k < l < r.len() ==> r[k] < r[l],
        forall|i: int| 0 <= i < names.len() ==> (r@.contains(i as usize) <==> names[i]@ == name@),
{
    let mut r: Vec<usize> = Vec::new();
    let mut i: usize = 0;
    while i < names.len()
        invariant
            i <= names.len(),
            forall|k: int| 0 <= k < r.len() ==> r[k] < i,
            forall|k: int, l: int| 0 <= k < l < r.len() ==> r[k] < r[l],
            forall|j: int| 0 <= j < i ==> (r@.contains(j as usize) <==> names[j]@ == name@),
        decreases names.len() - i,
    {
        let ghost old_r = r@;
        if names[i] == *name {
            r.push(i);
            assert(r@[r.len() - 1] == i);
        }
        assert forall|j: int| 0 <= j <= i implies (r@.contains(j as usize) <==> names[j]@ == name@) by {
            if r@.contains(j as usize) {
                let k = choose|k: int| 0 <= k < r.len() && r[k] == j as usize;
                if k < old_r.len() {
                    assert(old_r[k] == j as usize);
                }
            }
            if j < i && old_r.contains(j as usize) {
                let k = choose|k: int| 0 <= k < old_r.len() && old_r[k] == j as usize;
                assert(r@[k] == j as usize);
            }
        }
        i = i + 1;
    }
    r
}

} // verus!
