//! The ordered, duplicate-free string collections of a form document, held in
//! `indexmap::IndexSet`, and what this library relies on of it.
use vstd::prelude::*;
use indexmap::IndexSet;

verus! {

#[verifier::external_type_specification]
#[verifier::external_body]
#[verifier::reject_recursive_types(T)]
#[verifier::reject_recursive_types(S)]
pub struct ExIndexSet<T, S>(IndexSet<T, S>);

/// The entries of an ordered set, in their order.
pub uninterp spec fn ordered_items(s: IndexSet<String>) -> Seq<Seq<char>>;

/// The views of a vector of strings, in order.
pub open spec fn views(v: Seq<String>) -> Seq<Seq<char>> {
    v.map_values(|x: String| x@)
}

/// Relies on `IndexSet::new`: a new set is empty.
#[verifier::external_body]
pub(crate) fn ordered_set_new() -> (r: IndexSet<String>)
    ensures
        ordered_items(r) == Seq::<Seq<char>>::empty(),
{
    IndexSet::new()
}

/// Relies on `IndexSet::insert`: a value not yet present goes to the end; a
/// present one leaves the set as it was.
#[verifier::external_body]
pub(crate) fn ordered_set_insert(s: &mut IndexSet<String>, x: String) -> (r: bool)
    ensures
        r == !ordered_items(*old(s)).contains(x@),
        ordered_items(*final(s)) == if ordered_items(*old(s)).contains(x@) {
            ordered_items(*old(s))
        } else {
            ordered_items(*old(s)).push(x@)
        },
{
    s.insert(x)
}

/// Relies on `IndexSet::len`: the number of entries.
#[verifier::external_body]
pub(crate) fn ordered_set_len(s: &IndexSet<String>) -> (r: usize)
    ensures
        r == ordered_items(*s).len(),
{
    s.len()
}

/// Relies on `IndexSet::difference`: the entries of `s` that `o` lacks, in the
/// order of `s`.
#[verifier::external_body]
pub(crate) fn ordered_set_difference(s: &IndexSet<String>, o: &IndexSet<String>) -> (r: Vec<String>)
    ensures
        views(r@) == ordered_items(*s).filter(|x: Seq<char>| !ordered_items(*o).contains(x)),
{
    s.difference(o).cloned().collect()
}

/// The first occurrence of each entry of `s`, in order.
pub open spec fn distinct(s: Seq<Seq<char>>) -> Seq<Seq<char>>
    decreases s.len(),
{
    if s.len() == 0 {
        s
    } else {
        let d = distinct(s.drop_last());
        if d.contains(s.last()) {
            d
        } else {
            d.push(s.last())
        }
    }
}

pub proof fn lemma_distinct(s: Seq<Seq<char>>)
    ensures
        distinct(s).no_duplicates(),
        distinct(s).to_set() == s.to_set(),
        forall|x: Seq<char>| distinct(s).contains(x) <==> s.contains(x),
    decreases s.len(),
{
    if s.len() > 0 {
        lemma_distinct(s.drop_last());
        let d = distinct(s.drop_last());
        assert(s == s.drop_last().push(s.last()));
        assert forall|x: Seq<char>| distinct(s).contains(x) <==> s.contains(x) by {
            let p = s.drop_last();
            if x == s.last() {
                assert(s[s.len() - 1] == x);
                if !d.contains(x) {
                    assert(d.push(x)[d.len() as int] == x);
                }
            } else {
                if s.contains(x) {
                    let i = choose|i: int| 0 <= i < s.len() && s[i] == x;
                    assert(p[i] == x);
                    assert(p.contains(x));
                    assert(d.contains(x));
                    if !d.contains(s.last()) {
                        let j = choose|j: int| 0 <= j < d.len() && d[j] == x;
                        assert(d.push(s.last())[j] == x);
                    }
                }
                if distinct(s).contains(x) {
                    if !d.contains(s.last()) {
                        let j = choose|j: int| 0 <= j < d.push(s.last()).len() && d.push(s.last())[j] == x;
                        assert(j < d.len());
                        assert(d[j] == x);
                    }
                    assert(d.contains(x));
                    assert(p.contains(x));
                    let k = choose|k: int| 0 <= k < p.len() && p[k] == x;
                    assert(s[k] == x);
                }
            }
        }
        assert(distinct(s).to_set() =~= s.to_set());
    } else {
        assert(distinct(s).to_set() =~= s.to_set());
    }
}

/// Builds an ordered set of the entries of `v`, keeping the first of equal ones.
pub fn ordered_set_from(v: &Vec<String>) -> (r: IndexSet<String>)
    ensures
        ordered_items(r) == distinct(views(v@)),
{
    let mut r = ordered_set_new();
    let mut i: usize = 0;
    while i < v.len()
        invariant
            i <= v.len(),
            ordered_items(r) == distinct(views(v@.subrange(0, i as int))),
        decreases v.len() - i,
    {
        assert(views(v@.subrange(0, i as int + 1)).drop_last() == views(v@.subrange(0, i as int)));
        ordered_set_insert(&mut r, v[i].clone());
        i = i + 1;
    }
    assert(v@.subrange(0, v.len() as int) == v@);
    r
}

} // verus!
