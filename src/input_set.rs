use vstd::prelude::*;

use indexmap::IndexSet;

use crate::types::Input;

verus! {

#[verifier::external_type_specification]
#[verifier::external_body]
#[verifier::reject_recursive_types(T)]
#[verifier::reject_recursive_types(S)]
pub struct ExIndexSet<T, S>(IndexSet<T, S>);

/// The inputs an `IndexSet` holds, in insertion order.
pub uninterp spec fn input_set_items(s: IndexSet<Input>) -> Seq<Input>;

/// `items` holds an input equal to `input`.
pub open spec fn holds_input(items: Seq<Input>, input: Input) -> bool {
    exists|i: int| 0 <= i < items.len() && (#[trigger] items[i]).same(&input)
}

/// Relies on indexmap's `IndexSet::new`: a new set is empty.
#[verifier::external_body]
pub(crate) fn input_set_new() -> (r: IndexSet<Input>)
    ensures
        input_set_items(r) == Seq::<Input>::empty(),
{
    IndexSet::new()
}

/// Relies on indexmap's `IndexSet::len`: the number of elements.
#[verifier::external_body]
pub(crate) fn input_set_len(s: &IndexSet<Input>) -> (r: usize)
    ensures
        r == input_set_items(*s).len(),
{
    s.len()
}

/// Relies on indexmap's `IndexSet::contains`: whether an element equal to
/// `input` is held (the derived `Hash` of `Input` agrees with its `==`).
#[verifier::external_body]
pub(crate) fn input_set_contains(s: &IndexSet<Input>, input: &Input) -> (r: bool)
    ensures
        r == holds_input(input_set_items(*s), *input),
{
    s.contains(input)
}

/// Relies on indexmap's `IndexSet::insert`: a new element goes to the end
/// and `true` is returned; an element equal to one held leaves the set as it
/// was and `false` is returned.
#[verifier::external_body]
pub(crate) fn input_set_insert(s: &mut IndexSet<Input>, input: Input) -> (r: bool)
    ensures
        r == !holds_input(input_set_items(*old(s)), input),
        r ==> input_set_items(*final(s)) == input_set_items(*old(s)).push(input),
        !r ==> input_set_items(*final(s)) == input_set_items(*old(s)),
{
    s.insert(input)
}

/// Relies on indexmap's `IndexSet::get_index`: the element at `index` in
/// insertion order, or `None` past the end.
#[verifier::external_body]
pub(crate) fn input_set_get(s: &IndexSet<Input>, index: usize) -> (r: Option<&Input>)
    ensures
        index < input_set_items(*s).len() ==> r == Some(&input_set_items(*s)[index as int]),
        index >= input_set_items(*s).len() ==> r is None,
{
    s.get_index(index)
}

} // verus!
