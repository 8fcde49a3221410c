//! Insertion-ordered sets of names (runtime helpers to import, events to
//! delegate), kept in `indexmap::IndexSet`.
use indexmap::IndexSet;
use vstd::prelude::*;
use crate::text::views;

verus! {

/// `indexmap::IndexSet`, whose contents are named by `name_set_view`.
#[verifier::external_type_specification]
#[verifier::external_body]
#[verifier::reject_recursive_types(T)]
#[verifier::reject_recursive_types(S)]
pub struct ExIndexSet<T, S>(IndexSet<T, S>);

/// The names a set holds, in insertion order.
pub uninterp spec fn name_set_view(s: IndexSet<String>) -> Seq<Seq<char>>;

/// The names after inserting `name`: appended unless already present.
pub open spec fn name_set_insert_spec(names: Seq<Seq<char>>, name: Seq<char>) -> Seq<Seq<char>> {
    if names.contains(name) {
        names
    } else {
        names.push(name)
    }
}

/// Calls `IndexSet::new`: a set holding no name.
#[verifier::external_body]
pub(crate) fn name_set_new() -> (r: IndexSet<String>)
    ensures
        name_set_view(r) == Seq::<Seq<char>>::empty(),
{
    IndexSet::new()
}

/// Calls `IndexSet::insert`. As its documentation says, a name already
/// present leaves the set and its order unchanged and gives `false`; any
/// other name is appended and gives `true`. Strings compare by their text.
#[verifier::external_body]
pub(crate) fn name_set_insert(set: &mut IndexSet<String>, name: String) -> (r: bool)
    ensures
        name_set_view(*final(set)) == name_set_insert_spec(name_set_view(*old(set)), name@),
        r == !name_set_view(*old(set)).contains(name@),
{
    set.insert(name)
}

/// Calls `IndexSet::iter` and copies the names out, in their order.
#[verifier::external_body]
pub(crate) fn name_set_to_vec(set: &IndexSet<String>) -> (r: Vec<String>)
    ensures
        views(r@) == name_set_view(*set),
{
    set.iter().cloned().collect()
}

/// Calls `IndexSet::clone`: a copy holding the same names in the same
/// order.
#[verifier::external_body]
pub(crate) fn name_set_clone(set: &IndexSet<String>) -> (r: IndexSet<String>)
    ensures
        name_set_view(r) == name_set_view(*set),
{
    set.clone()
}

/// Inserting keeps a set free of repeated names.
pub proof fn lemma_insert_keeps_distinct(names: Seq<Seq<char>>, name: Seq<char>)
    requires
        names.no_duplicates(),
    ensures
        name_set_insert_spec(names, name).no_duplicates(),
        name_set_insert_spec(names, name).contains(name),
{
    if !names.contains(name) {
        let r = names.push(name);
        assert(r[names.len() as int] == name);
        assert forall|i: int, j: int| 0 <= i < r.len() && 0 <= j < r.len() && i != j implies r[i]
            != r[j] by {
            if i == names.len() {
                assert(names[j] == r[j]);
            } else if j == names.len() {
                assert(names[i] == r[i]);
            }
        }
    }
}

} // verus!
