//! What comes out of a run.

use crate::value::{Value, ValueView};
use vstd::prelude::*;

verus! {

/// An output that the model has.
#[derive(Debug)]
pub struct Output {
    pub name: String,
}

impl Output {
    /// The output's name.
    pub fn name(&self) -> (name: &str)
        ensures
            name@ == self.name@,
    {
        self.name.as_str()
    }
}

/// The names of `outputs`, in order.
pub open spec fn output_names(outputs: Seq<Output>) -> Seq<Seq<char>> {
    outputs.map_values(|output: Output| output.name@)
}

/// The outputs of a run: their names, and their values in the same order.
#[derive(Debug)]
pub struct SessionOutputs {
    pub names: Vec<String>,
    pub values: Vec<Value>,
}

/// The outputs of a run, by name and by value.
#[verifier::ext_equal]
pub struct SessionOutputsView {
    pub names: Seq<Seq<char>>,
    pub values: Seq<ValueView>,
}

impl View for SessionOutputs {
    type V = SessionOutputsView;

    open spec fn view(&self) -> SessionOutputsView {
        SessionOutputsView {
            names: self.names@.map_values(|name: String| name@),
            values: self.values@.map_values(|value: Value| value@),
        }
    }
}

impl SessionOutputsView {
    /// The value of the first output called `name`, if there is one.
    pub open spec fn value_of(&self, name: Seq<char>) -> Option<ValueView> {
        match self.names.index_of_first(name) {
            Some(i) => Some(self.values[i]),
            None => None,
        }
    }
}

impl SessionOutputs {
    /// Outputs with these names and these values.
    pub fn new(names: Vec<String>, values: Vec<Value>) -> (outputs: SessionOutputs)
        ensures
            outputs.names == names,
            outputs.values == values,
    {
        SessionOutputs { names, values }
    }

    /// The value of the output called `name`, if there is one; of the first, if there
    /// are several.
    pub fn get(&self, name: &str) -> (value: Option<&Value>)
        requires
            self.names@.len() <= self.values@.len(),
        ensures
            match value {
                Some(value) => self@.value_of(name@) == Some(value@),
                None => self@.value_of(name@) is None,
            },
    {
        let wanted = name.to_owned();
        let mut i: usize = 0;
        while i < self.names.len()
            invariant
                i <= self.names.len(),
                self.names@.len() <= self.values@.len(),
                wanted@ == name@,
                forall|j: int| 0 <= j < i ==> self@.names[j] != name@,
            decreases self.names.len() - i,
        {
            if self.names[i] == wanted {
                proof {
                    self@.names.index_of_first_ensures(name@);
                    assert(self@.names[i as int] == name@);
                }
                return Some(&self.values[i]);
            }
            i += 1;
        }
        proof {
            self@.names.index_of_first_ensures(name@);
        }
        None
    }

    /// No outputs.
    pub fn new_empty() -> (outputs: SessionOutputs)
        ensures
            outputs@ == (SessionOutputsView { names: Seq::empty(), values: Seq::empty() }),
    {
        let outputs = SessionOutputs { names: Vec::new(), values: Vec::new() };
        assert(outputs@.names =~= Seq::empty());
        assert(outputs@.values =~= Seq::empty());
        outputs
    }
}

/// Outputs are known by the names and the values that they hold, position by position: by
/// each value's own object, and the session that it keeps alive.
pub proof fn law_outputs_are_what_they_hold(outputs: SessionOutputs)
    ensures
        outputs@.names.len() == outputs.names@.len(),
        outputs@.values.len() == outputs.values@.len(),
        forall|i: int|
            0 <= i < outputs.names@.len() ==> #[trigger] outputs@.names[i] == outputs.names@[i]@,
        forall|i: int|
            0 <= i < outputs.values@.len() ==> #[trigger] outputs@.values[i] == (ValueView {
                address: outputs.values@[i].inner.ptr@,
                session: outputs.values@[i].inner.session,
            }),
{
}

/// Looking a name up finds the value at the first position that holds the name, and finds
/// none exactly where no position does.
pub proof fn law_lookup_finds_the_first(outputs: SessionOutputs, name: Seq<char>)
    requires
        outputs.names@.len() <= outputs.values@.len(),
    ensures
        outputs@.value_of(name) is None <==> (forall|i: int|
            0 <= i < outputs.names@.len() ==> (#[trigger] outputs.names@[i])@ != name),
        forall|i: int|
            {
                &&& 0 <= i < outputs.names@.len()
                &&& (#[trigger] outputs.names@[i])@ == name
                &&& forall|j: int| 0 <= j < i ==> (#[trigger] outputs.names@[j])@ != name
            } ==> outputs@.value_of(name) == Some(
                ValueView {
                    address: outputs.values@[i].inner.ptr@,
                    session: outputs.values@[i].inner.session,
                },
            ),
{
    outputs@.names.index_of_first_ensures(name);
    assert forall|i: int| 0 <= i < outputs.names@.len() implies outputs@.names[i]
        == (#[trigger] outputs.names@[i])@ by {}
    if outputs@.value_of(name) is Some {
        let first = outputs@.names.index_of_first(name)->0;
        assert(outputs.names@[first]@ == name);
    }
    assert forall|i: int|
        {
            &&& 0 <= i < outputs.names@.len()
            &&& (#[trigger] outputs.names@[i])@ == name
            &&& forall|j: int| 0 <= j < i ==> (#[trigger] outputs.names@[j])@ != name
        } implies outputs@.value_of(name) == Some(
        ValueView {
            address: outputs.values@[i].inner.ptr@,
            session: outputs.values@[i].inner.session,
        },
    ) by {
        assert(outputs@.names[i] == name);
        let first = outputs@.names.index_of_first(name)->0;
        assert(outputs.names@[first]@ == name);
        assert(first == i);
    }
}

/// Outputs are made of the names and the values that are given, or of none.
pub proof fn law_outputs_are_made_of_what_is_given(
    names: Vec<String>,
    values: Vec<Value>,
    outputs: SessionOutputs,
    none: SessionOutputs,
)
    requires
        call_ensures(SessionOutputs::new, (names, values), outputs),
        call_ensures(SessionOutputs::new_empty, (), none),
    ensures
        outputs.names == names,
        outputs.values == values,
        none.names@.len() == 0,
        none.values@.len() == 0,
{
    law_outputs_are_what_they_hold(none);
}

/// What a caller of `get` gets: the value at the first position that holds the name, and
/// nothing exactly where no position does.
pub proof fn law_get(outputs: &SessionOutputs, name: &str, found: Option<&Value>)
    requires
        outputs.names@.len() <= outputs.values@.len(),
        call_ensures(SessionOutputs::get, (outputs, name), found),
    ensures
        call_requires(SessionOutputs::get, (outputs, name)),
        found is None <==> (forall|i: int|
            0 <= i < outputs.names@.len() ==> (#[trigger] outputs.names@[i])@ != name@),
        forall|i: int|
            {
                &&& 0 <= i < outputs.names@.len()
                &&& (#[trigger] outputs.names@[i])@ == name@
                &&& forall|j: int| 0 <= j < i ==> (#[trigger] outputs.names@[j])@ != name@
            } ==> {
                &&& found is Some
                &&& found->0.inner.ptr@ == outputs.values@[i].inner.ptr@
                &&& found->0.inner.session == outputs.values@[i].inner.session
            },
{
    law_lookup_finds_the_first(*outputs, name@);
}

/// An output is called what its name says.
pub proof fn law_output_name(output: &Output, name: &str)
    requires
        call_ensures(Output::name, (output,), name),
    ensures
        name@ == output.name@,
{
}

} // verus!
