//! Lists that stay on the stack while they are short.

use crate::pointer::AsPointer;
use crate::session::input::{
    addresses, entry_addresses, entry_names, input_names, Input, SessionInputValue,
};
use smallvec::SmallVec;
use vstd::prelude::*;

verus! {

/// How many inputs a run can have before its lists of them move to the heap.
pub const STACK_SESSION_INPUTS: usize = 6;

/// A `smallvec::SmallVec` of input names. What it holds is known through [`held_names`]
/// alone.
#[verifier::external_body]
pub struct InputNames<'i> {
    list: SmallVec<[&'i str; STACK_SESSION_INPUTS]>,
}

/// The names that the list holds, in order.
pub uninterp spec fn held_names(names: InputNames<'_>) -> Seq<Seq<char>>;

impl<'i> InputNames<'i> {
    /// `SmallVec::new`: a list that holds nothing.
    #[verifier::external_body]
    pub(crate) fn new() -> (names: InputNames<'i>)
        ensures
            held_names(names) == Seq::<Seq<char>>::empty(),
    {
        InputNames { list: SmallVec::new() }
    }

    /// `SmallVec::push`: the name goes behind those that the list holds, which stay as
    /// they are. The call panics only on a list that outgrows the address space.
    #[verifier::external_body]
    pub(crate) fn push(&mut self, name: &'i str)
        ensures
            held_names(*final(self)) == held_names(*old(self)).push(name@),
    {
        self.list.push(name);
    }

    /// `SmallVec::as_slice`: all that the list holds, in order.
    #[verifier::external_body]
    pub(crate) fn as_slice(&self) -> (names: &[&'i str])
        ensures
            names@.map_values(|name: &str| name@) == held_names(*self),
    {
        self.list.as_slice()
    }
}

impl<'i> InputNames<'i> {
    /// The names of `inputs`.
    pub(crate) fn of_inputs(inputs: &'i Vec<Input>) -> (names: InputNames<'i>)
        ensures
            held_names(names) == input_names(inputs@),
    {
        let mut names = InputNames::new();
        let mut i: usize = 0;
        while i < inputs.len()
            invariant
                i <= inputs.len(),
                held_names(names) =~= input_names(inputs@).take(i as int),
            decreases inputs.len() - i,
        {
            names.push(inputs[i].name());
            i += 1;
        }
        names
    }

    /// The names in `entries`.
    pub(crate) fn of_entries<'v>(entries: &'i Vec<(String, SessionInputValue<'v>)>) -> (names:
        InputNames<'i>)
        ensures
            held_names(names) == entry_names(entries@),
    {
        let mut names = InputNames::new();
        let mut i: usize = 0;
        while i < entries.len()
            invariant
                i <= entries.len(),
                held_names(names) =~= entry_names(entries@).take(i as int),
            decreases entries.len() - i,
        {
            names.push(entries[i].0.as_str());
            i += 1;
        }
        names
    }
}

/// A `smallvec::SmallVec` of input values. What it holds is known through [`held_values`]
/// alone.
#[verifier::external_body]
pub struct InputValues<'i, 'v> {
    list: SmallVec<[&'i SessionInputValue<'v>; STACK_SESSION_INPUTS]>,
}

/// The addresses of the values that the list holds, in order.
pub uninterp spec fn held_values(values: InputValues<'_, '_>) -> Seq<usize>;

impl<'i, 'v> InputValues<'i, 'v> {
    /// `SmallVec::new`: a list that holds nothing.
    #[verifier::external_body]
    pub(crate) fn new() -> (values: InputValues<'i, 'v>)
        ensures
            held_values(values) == Seq::<usize>::empty(),
    {
        InputValues { list: SmallVec::new() }
    }

    /// `SmallVec::push`: the value goes behind those that the list holds, which stay as
    /// they are. The call panics only on a list that outgrows the address space.
    #[verifier::external_body]
    pub(crate) fn push(&mut self, value: &'i SessionInputValue<'v>)
        ensures
            held_values(*final(self)) == held_values(*old(self)).push(value.address()),
    {
        self.list.push(value);
    }

    /// `SmallVec::as_slice`: all that the list holds, in order.
    #[verifier::external_body]
    pub(crate) fn as_slice(&self) -> (values: &[&'i SessionInputValue<'v>])
        ensures
            values@.map_values(|value: &SessionInputValue| value.address()) == held_values(*self),
    {
        self.list.as_slice()
    }
}

impl<'i, 'v> InputValues<'i, 'v> {
    /// The values in `slice`.
    pub(crate) fn of_slice(slice: &'i [SessionInputValue<'v>]) -> (values: InputValues<'i, 'v>)
        ensures
            held_values(values) == addresses(slice@),
    {
        let mut values = InputValues::new();
        let mut i: usize = 0;
        while i < slice.len()
            invariant
                i <= slice.len(),
                held_values(values) =~= addresses(slice@).take(i as int),
            decreases slice.len() - i,
        {
            values.push(&slice[i]);
            i += 1;
        }
        values
    }

    /// The values in `entries`.
    pub(crate) fn of_entries(entries: &'i Vec<(String, SessionInputValue<'v>)>) -> (values:
        InputValues<'i, 'v>)
        ensures
            held_values(values) == entry_addresses(entries@),
    {
        let mut values = InputValues::new();
        let mut i: usize = 0;
        while i < entries.len()
            invariant
                i <= entries.len(),
                held_values(values) =~= entry_addresses(entries@).take(i as int),
            decreases entries.len() - i,
        {
            values.push(&entries[i].1);
            i += 1;
        }
        values
    }
}

} // verus!
