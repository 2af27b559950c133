//! What goes into a run.

use crate::pointer::AsPointer;
use crate::value::Value;
use vstd::prelude::*;

verus! {

/// An input that the model takes.
#[derive(Debug)]
pub struct Input {
    pub name: String,
}

impl Input {
    /// The input's name.
    pub fn name(&self) -> (name: &str)
        ensures
            name@ == self.name@,
    {
        self.name.as_str()
    }
}

/// The names of `inputs`, in order.
pub open spec fn input_names(inputs: Seq<Input>) -> Seq<Seq<char>> {
    inputs.map_values(|input: Input| input.name@)
}

/// A value handed to a run: lent to it, or given away.
#[derive(Debug)]
pub enum SessionInputValue<'v> {
    View(&'v Value),
    Owned(Value),
}

impl<'v> AsPointer for SessionInputValue<'v> {
    open spec fn address(&self) -> usize {
        match *self {
            SessionInputValue::View(value) => value@.address,
            SessionInputValue::Owned(value) => value@.address,
        }
    }

    fn ptr(&self) -> usize {
        match self {
            SessionInputValue::View(value) => value.ptr(),
            SessionInputValue::Owned(value) => value.ptr(),
        }
    }
}

/// The addresses of `values`, in order.
pub open spec fn addresses(values: Seq<SessionInputValue>) -> Seq<usize> {
    values.map_values(|value: SessionInputValue| value.address())
}

/// The names in `entries`, in order.
pub open spec fn entry_names(entries: Seq<(String, SessionInputValue)>) -> Seq<Seq<char>> {
    entries.map_values(|entry: (String, SessionInputValue)| entry.0@)
}

/// The addresses of the values in `entries`, in order.
pub open spec fn entry_addresses(entries: Seq<(String, SessionInputValue)>) -> Seq<usize> {
    entries.map_values(|entry: (String, SessionInputValue)| entry.1.address())
}

/// All the values for one run.
#[derive(Debug)]
pub enum SessionInputs<'i, 'v, const N: usize> {
    /// Values for the model's inputs, in the model's order.
    ValueSlice(&'i [SessionInputValue<'v>]),
    /// Values for the model's inputs, in the model's order.
    ValueArray([SessionInputValue<'v>; N]),
    /// Values, each with the name of the input that it is for.
    ValueMap(Vec<(String, SessionInputValue<'v>)>),
}

impl<'i, 'v, const N: usize> SessionInputs<'i, 'v, N> {
    /// The input names that the values are matched with, by position, in a model
    /// that takes `inputs`.
    pub open spec fn names(&self, inputs: Seq<Input>) -> Seq<Seq<char>> {
        match *self {
            SessionInputs::ValueMap(entries) => entry_names(entries@),
            _ => input_names(inputs),
        }
    }

    /// The addresses of the values, in order.
    pub open spec fn addresses(&self) -> Seq<usize> {
        match *self {
            SessionInputs::ValueSlice(values) => addresses(values@),
            SessionInputs::ValueArray(values) => addresses(values@),
            SessionInputs::ValueMap(entries) => entry_addresses(entries@),
        }
    }
}

/// An input is called what its name says.
pub proof fn law_input_name(input: &Input, name: &str)
    requires
        call_ensures(Input::name, (input,), name),
    ensures
        name@ == input.name@,
{
}

/// A value goes to the runtime by the address in its own object, lent or owned, whatever
/// session it keeps alive.
pub proof fn law_input_value_goes_by_its_object(
    value: &SessionInputValue,
    lent: &Value,
    addr: usize,
)
    requires
        call_ensures(<SessionInputValue as AsPointer>::ptr, (value,), addr),
        *value == SessionInputValue::View(lent) || *value == SessionInputValue::Owned(*lent),
    ensures
        addr == lent.inner.ptr@,
{
}

} // verus!
