//! Options for a single run.

use crate::pointer::{AsPointer, Pointer};
use crate::session::output::Output;
use crate::value::{Value, ValueView};
use std::marker::PhantomData;
use vstd::prelude::*;

verus! {

/// One output that a run is asked for.
#[derive(Debug)]
pub struct SelectedOutput {
    pub name: String,
    /// The value to write the output into. Without one, the runtime allocates it.
    pub value: Option<Value>,
}

/// One output that a run is asked for, by name, with the value that it is to be written
/// into.
pub struct SelectedOutputView {
    pub name: Seq<char>,
    pub value: Option<ValueView>,
}

impl View for SelectedOutput {
    type V = SelectedOutputView;

    open spec fn view(&self) -> SelectedOutputView {
        SelectedOutputView {
            name: self.name@,
            value: match self.value {
                Some(value) => Some(value@),
                None => None,
            },
        }
    }
}

/// The views of `selected`, in order.
pub open spec fn selected_views(selected: Seq<SelectedOutput>) -> Seq<SelectedOutputView> {
    selected.map_values(|output: SelectedOutput| output@)
}

/// Every one of `outputs`, in order, each to be allocated by the runtime.
pub open spec fn every_output(outputs: Seq<Output>) -> Seq<SelectedOutputView> {
    outputs.map_values(|output: Output| SelectedOutputView { name: output.name@, value: None })
}

/// Which outputs a run is asked for.
#[derive(Debug)]
pub enum OutputSelector {
    /// Every output of the model.
    All,
    /// These outputs, in this order.
    Only(Vec<SelectedOutput>),
}

impl OutputSelector {
    /// What the selector asks of a model that has `outputs`.
    pub open spec fn selection(&self, outputs: Seq<Output>) -> Seq<SelectedOutputView> {
        match *self {
            OutputSelector::All => every_output(outputs),
            OutputSelector::Only(selected) => selected_views(selected@),
        }
    }

    /// What the selector asks of a model that has `outputs`.
    pub fn resolve_outputs(&self, outputs: &Vec<Output>) -> (selected: Vec<SelectedOutput>)
        ensures
            selected_views(selected@) == self.selection(outputs@),
    {
        match self {
            OutputSelector::All => select_every(outputs),
            OutputSelector::Only(chosen) => {
                let mut selected: Vec<SelectedOutput> = Vec::new();
                let mut i: usize = 0;
                while i < chosen.len()
                    invariant
                        i <= chosen.len(),
                        selected.len() == i,
                        forall|j: int| 0 <= j < i ==> (#[trigger] selected@[j])@ == chosen@[j]@,
                    decreases chosen.len() - i,
                {
                    let value = match &chosen[i].value {
                        Some(value) => Some(Value::clone_of(value)),
                        None => None,
                    };
                    selected.push(SelectedOutput { name: chosen[i].name.clone(), value });
                    i += 1;
                }
                selected
            },
        }
    }
}

/// Asks for every one of `outputs`.
pub fn select_every(outputs: &Vec<Output>) -> (selected: Vec<SelectedOutput>)
    ensures
        selected_views(selected@) == every_output(outputs@),
{
    let mut selected: Vec<SelectedOutput> = Vec::new();
    let mut i: usize = 0;
    while i < outputs.len()
        invariant
            i <= outputs.len(),
            selected.len() == i,
            forall|j: int| 0 <= j < i ==> (#[trigger] selected@[j])@ == every_output(outputs@)[j],
        decreases outputs.len() - i,
    {
        selected.push(SelectedOutput { name: outputs[i].name.clone(), value: None });
        i += 1;
    }
    selected
}

/// Whether options say which outputs a run is asked for.
pub trait SelectedOutputMarker {

}

/// Options that leave the outputs as they are.
#[derive(Debug)]
pub struct NoSelectedOutputs;

/// Options that name the outputs.
#[derive(Debug)]
pub struct HasSelectedOutputs;

impl SelectedOutputMarker for NoSelectedOutputs {

}

impl SelectedOutputMarker for HasSelectedOutputs {

}

/// Options for a run, whichever outputs they ask for.
#[derive(Debug)]
pub struct UntypedRunOptions {
    pub ptr: Pointer,
    pub outputs: OutputSelector,
}

/// Options for a run.
#[derive(Debug)]
pub struct RunOptions<O: SelectedOutputMarker> {
    pub inner: UntypedRunOptions,
    pub marker: PhantomData<O>,
}

impl RunOptions<NoSelectedOutputs> {
    /// The options object at `ptr`, asking for every output.
    pub fn new(ptr: Pointer) -> (options: Self)
        ensures
            options.inner == (UntypedRunOptions { ptr, outputs: OutputSelector::All }),
    {
        RunOptions {
            inner: UntypedRunOptions { ptr, outputs: OutputSelector::All },
            marker: PhantomData,
        }
    }

    /// The same options, asking for `outputs`.
    pub fn with_outputs(self, outputs: OutputSelector) -> (options: RunOptions<HasSelectedOutputs>)
        ensures
            options.inner == (UntypedRunOptions { ptr: self.inner.ptr, outputs }),
    {
        RunOptions {
            inner: UntypedRunOptions { ptr: self.inner.ptr, outputs },
            marker: PhantomData,
        }
    }
}

impl<O: SelectedOutputMarker> AsPointer for RunOptions<O> {
    open spec fn address(&self) -> usize {
        self.inner.ptr@
    }

    fn ptr(&self) -> usize {
        self.inner.ptr.addr()
    }
}

/// A selector that lists outputs asks for exactly those, position by position: as many as
/// are listed, each by its listed name, and written into its listed value or, without one,
/// left to the runtime. What the model has makes no difference.
pub proof fn law_listed_outputs_are_selected(
    listed: Vec<SelectedOutput>,
    outputs: Seq<Output>,
    selected: Seq<SelectedOutput>,
)
    requires
        selected_views(selected) == OutputSelector::Only(listed).selection(outputs),
    ensures
        selected.len() == listed@.len(),
        forall|i: int|
            0 <= i < listed@.len() ==> (#[trigger] selected[i]).name@ == listed@[i].name@,
        forall|i: int|
            0 <= i < listed@.len() ==> ((#[trigger] selected[i]).value is Some
                <==> listed@[i].value is Some),
        forall|i: int|
            0 <= i < listed@.len() && (#[trigger] selected[i]).value is Some ==> {
                &&& selected[i].value->0.inner.ptr@ == listed@[i].value->0.inner.ptr@
                &&& selected[i].value->0.inner.session == listed@[i].value->0.inner.session
            },
{
    let views = selected_views(selected);
    assert(views.len() == listed@.len());
    assert forall|i: int| 0 <= i < listed@.len() implies (#[trigger] selected[i])@
        == listed@[i]@ by {
        assert(views[i] == selected[i]@);
        assert(views[i] == listed@[i]@);
    }
}

/// A selector that lists none asks for every output that the model has, in the model's
/// order, and leaves each to the runtime.
pub proof fn law_every_output_is_selected(outputs: Seq<Output>, selected: Seq<SelectedOutput>)
    requires
        selected_views(selected) == OutputSelector::All.selection(outputs) || selected_views(
            selected,
        ) == every_output(outputs),
    ensures
        selected.len() == outputs.len(),
        forall|i: int|
            0 <= i < outputs.len() ==> {
                &&& (#[trigger] selected[i]).name@ == outputs[i].name@
                &&& selected[i].value is None
            },
{
    let views = selected_views(selected);
    assert(views.len() == outputs.len());
    assert forall|i: int| 0 <= i < outputs.len() implies {
        &&& (#[trigger] selected[i]).name@ == outputs[i].name@
        &&& selected[i].value is None
    } by {
        assert(views[i] == selected[i]@);
    }
}

/// Options are of the object that they are made around. At first they ask for every output,
/// and then for whatever they are told to; they stay those of the same object.
pub proof fn law_options_keep_their_object(
    ptr: Pointer,
    options: RunOptions<NoSelectedOutputs>,
    outputs: OutputSelector,
    selecting: RunOptions<HasSelectedOutputs>,
    addr: usize,
)
    requires
        call_ensures(RunOptions::<NoSelectedOutputs>::new, (ptr,), options),
        call_ensures(
            RunOptions::<NoSelectedOutputs>::with_outputs,
            (options, outputs),
            selecting,
        ),
        call_ensures(
            <RunOptions<HasSelectedOutputs> as AsPointer>::ptr,
            (&selecting,),
            addr,
        ),
    ensures
        options.inner.ptr == ptr,
        options.inner.outputs is All,
        selecting.inner.ptr == ptr,
        selecting.inner.outputs == outputs,
        addr == ptr@,
{
}

/// What a caller of `resolve_outputs` gets from a selector that lists outputs: exactly
/// those, position by position, each with its listed value or without one.
pub proof fn law_resolve_listed_outputs(
    listed: Vec<SelectedOutput>,
    outputs: &Vec<Output>,
    selected: Vec<SelectedOutput>,
)
    requires
        call_ensures(
            OutputSelector::resolve_outputs,
            (&OutputSelector::Only(listed), outputs),
            selected,
        ),
    ensures
        selected@.len() == listed@.len(),
        forall|i: int|
            0 <= i < listed@.len() ==> {
                &&& (#[trigger] selected@[i]).name@ == listed@[i].name@
                &&& selected@[i].value is Some <==> listed@[i].value is Some
                &&& listed@[i].value matches Some(value) ==> {
                    &&& selected@[i].value->0.inner.ptr@ == value.inner.ptr@
                    &&& selected@[i].value->0.inner.session == value.inner.session
                }
            },
{
    law_listed_outputs_are_selected(listed, outputs@, selected@);
}

/// What a caller of `resolve_outputs` gets from a selector that lists none, and a caller of
/// `select_every`: every output of the model, in its order, each left to the runtime.
pub proof fn law_resolve_every_output(
    outputs: &Vec<Output>,
    resolved: Vec<SelectedOutput>,
    every: Vec<SelectedOutput>,
)
    requires
        call_ensures(
            OutputSelector::resolve_outputs,
            (&OutputSelector::All, outputs),
            resolved,
        ),
        call_ensures(select_every, (outputs,), every),
    ensures
        resolved@.len() == outputs@.len(),
        every@.len() == outputs@.len(),
        forall|i: int|
            0 <= i < outputs@.len() ==> {
                &&& (#[trigger] resolved@[i]).name@ == outputs@[i].name@
                &&& resolved@[i].value is None
            },
        forall|i: int|
            0 <= i < outputs@.len() ==> {
                &&& (#[trigger] every@[i]).name@ == outputs@[i].name@
                &&& every@[i].value is None
            },
{
    law_every_output_is_selected(outputs@, resolved@);
    law_every_output_is_selected(outputs@, every@);
}

} // verus!
