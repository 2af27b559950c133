//! The calls that a session makes into the runtime, as plain argument lists.

use crate::error::Error;
use crate::pointer::Pointer;
use crate::session::output::{SessionOutputs, SessionOutputsView};
use crate::session::run_options::{selected_views, SelectedOutput, SelectedOutputView};
use crate::session::SharedSessionInner;
use crate::shared::share;
use crate::value::{Value, ValueView};
use std::sync::Arc;
use vstd::prelude::*;

verus! {

/// The arguments of the runtime's `Run`. Zero is the null address.
///
/// The runtime reads as many of `input_names` as there are `input_values`, and matches
/// them by position. It fills those places of `output_values` that are null.
#[derive(Debug)]
pub struct RunRequest {
    pub session: usize,
    pub run_options: usize,
    /// C strings.
    pub input_names: Vec<Vec<u8>>,
    pub input_values: Vec<usize>,
    /// C strings.
    pub output_names: Vec<Vec<u8>>,
    pub output_values: Vec<usize>,
}

/// The arguments of the runtime's `Run`.
#[verifier::ext_equal]
pub struct RunRequestView {
    pub session: usize,
    pub run_options: usize,
    pub input_names: Seq<Seq<u8>>,
    pub input_values: Seq<usize>,
    pub output_names: Seq<Seq<u8>>,
    pub output_values: Seq<usize>,
}

impl View for RunRequest {
    type V = RunRequestView;

    open spec fn view(&self) -> RunRequestView {
        RunRequestView {
            session: self.session,
            run_options: self.run_options,
            input_names: self.input_names@.map_values(|name: Vec<u8>| name@),
            input_values: self.input_values@,
            output_names: self.output_names@.map_values(|name: Vec<u8>| name@),
            output_values: self.output_values@,
        }
    }
}

/// The names of the outputs that a run is asked for, in order.
pub open spec fn selected_names(selected: Seq<SelectedOutputView>) -> Seq<Seq<char>> {
    selected.map_values(|output: SelectedOutputView| output.name)
}

/// What goes to the runtime for each output that a run is asked for: the address of the
/// value to write it into, or null.
pub open spec fn selected_addresses(selected: Seq<SelectedOutputView>) -> Seq<usize> {
    selected.map_values(
        |output: SelectedOutputView|
            match output.value {
                Some(value) => value.address,
                None => 0,
            },
    )
}

/// Whether `written`, the addresses that the runtime left behind, has one for each
/// output, and none is null that the runtime had to allocate.
pub open spec fn fills(selected: Seq<SelectedOutputView>, written: Seq<usize>) -> bool {
    &&& written.len() == selected.len()
    &&& forall|i: int|
        0 <= i < selected.len() && (#[trigger] selected[i]).value is None ==> written[i] != 0
}

/// The outputs of a run of `session` that was asked for `selected`, when the runtime left
/// the addresses `written` behind: a value that was there before the run stays itself,
/// and one that the runtime allocated keeps the session alive.
pub open spec fn run_outputs(
    selected: Seq<SelectedOutputView>,
    session: Arc<SharedSessionInner>,
    written: Seq<usize>,
) -> SessionOutputsView {
    SessionOutputsView {
        names: selected_names(selected),
        values: Seq::new(
            selected.len(),
            |i: int|
                match selected[i].value {
                    Some(value) => value,
                    None => ValueView { address: written[i], session: Some(session) },
                },
        ),
    }
}

/// Whether `result` is what a run of `session` that was asked for `selected` gives when
/// the runtime answers with `reply`.
pub open spec fn answered(
    selected: Seq<SelectedOutputView>,
    session: Arc<SharedSessionInner>,
    reply: Result<Vec<usize>, Error>,
    result: Result<SessionOutputs, Error>,
) -> bool {
    match reply {
        Ok(written) => result matches Ok(outputs) && outputs@ == run_outputs(
            selected,
            session,
            written@,
        ),
        Err(error) => result == Err::<SessionOutputs, Error>(error),
    }
}

/// A run that the runtime has been asked for and has not answered.
#[derive(Debug)]
pub struct PendingRun {
    /// The outputs that the run was asked for.
    pub selected: Vec<SelectedOutput>,
    pub session: Arc<SharedSessionInner>,
}

impl PendingRun {
    /// What the run gives when the runtime answers with `reply`: its failure, or the
    /// addresses in the places for the outputs.
    pub fn finish(self, reply: Result<Vec<usize>, Error>) -> (result: Result<SessionOutputs, Error>)
        requires
            reply matches Ok(written) ==> fills(selected_views(self.selected@), written@),
        ensures
            answered(selected_views(self.selected@), self.session, reply, result),
    {
        let written = match reply {
            Ok(written) => written,
            Err(error) => {
                return Err(error);
            },
        };
        let ghost selected = selected_views(self.selected@);
        let ghost expected = run_outputs(selected, self.session, written@);
        let mut names: Vec<String> = Vec::new();
        let mut values: Vec<Value> = Vec::new();
        let mut i: usize = 0;
        while i < self.selected.len()
            invariant
                i <= self.selected.len(),
                selected == selected_views(self.selected@),
                expected == run_outputs(selected, self.session, written@),
                fills(selected, written@),
                names.len() == i,
                values.len() == i,
                forall|j: int| 0 <= j < i ==> (#[trigger] names@[j])@ == expected.names[j],
                forall|j: int| 0 <= j < i ==> (#[trigger] values@[j])@ == expected.values[j],
            decreases self.selected.len() - i,
        {
            let output = &self.selected[i];
            assert(selected[i as int] == output@);
            let value = match &output.value {
                Some(value) => Value::clone_of(value),
                None => {
                    let ptr = Pointer::new(written[i]).unwrap();
                    Value::from_ptr(ptr, Some(share(&self.session)))
                },
            };
            names.push(output.name.clone());
            values.push(value);
            i += 1;
        }
        let outputs = SessionOutputs::new(names, values);
        assert(outputs@ =~= expected);
        Ok(outputs)
    }
}

} // verus!
