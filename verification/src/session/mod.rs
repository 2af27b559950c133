//! Sessions: a loaded model, and the calls that run it.

use crate::error::{Error, ErrorCode};
use crate::memory::Allocator;
use crate::pointer::{AsPointer, Pointer};
use crate::session::builder::{built, SessionBuilder};
use crate::session::input::{Input, SessionInputValue, SessionInputs};
use crate::session::output::{Output, SessionOutputs};
use crate::session::request::{
    answered, fills, selected_addresses, selected_names, PendingRun, RunRequest, RunRequestView,
};
use crate::session::run_options::{
    every_output, select_every, selected_views, RunOptions, SelectedOutputMarker,
    SelectedOutputView, UntypedRunOptions,
};
use crate::session::stack::{held_names, held_values, InputNames, InputValues};
use crate::shared::share;
use crate::text::{all_nul_free, c_strings, decimal, nul_free, push_decimal, to_c_string};
use std::sync::Arc;
use vstd::prelude::*;

pub mod behaviour;
pub mod bound;
pub mod builder;
pub mod calls;
pub mod input;
pub mod laws;
pub mod output;
pub mod request;
pub mod run_options;
mod stack;

verus! {

/// What a session and everything that came out of it share.
#[derive(Debug)]
pub struct SharedSessionInner {
    pub session_ptr: Pointer,
    pub allocator: Allocator,
}

impl AsPointer for SharedSessionInner {
    open spec fn address(&self) -> usize {
        self.session_ptr@
    }

    fn ptr(&self) -> usize {
        self.session_ptr.addr()
    }
}

/// An ONNX Runtime session.
#[derive(Debug)]
pub struct Session {
    pub inner: Arc<SharedSessionInner>,
    pub inputs: Vec<Input>,
    pub outputs: Vec<Output>,
}

/// The answer to a run that is given more values than it has names for: which error it
/// is, and what it says.
pub open spec fn too_many_inputs(error: Error, given: nat, accepted: nat) -> bool {
    &&& error.code == ErrorCode::InvalidArgument
    &&& error.msg@ == decimal(given) + " inputs were provided, but the model only accepts "@
        + decimal(accepted) + "."@
}

/// The answer to a run that is given more values than it has names for.
fn refuse_inputs(given: usize, accepted: usize) -> (error: Error)
    ensures
        too_many_inputs(error, given as nat, accepted as nat),
{
    let mut msg = String::new();
    push_decimal(&mut msg, given);
    msg.append(" inputs were provided, but the model only accepts ");
    push_decimal(&mut msg, accepted);
    msg.append(".");
    assert(msg@ =~= decimal(given as nat)
        + " inputs were provided, but the model only accepts "@ + decimal(accepted as nat)
        + "."@);
    Error::new_with_code(ErrorCode::InvalidArgument, msg)
}

impl Session {
    /// The outputs that a run with `run_options` is asked for.
    pub open spec fn selection(&self, run_options: Option<&UntypedRunOptions>) -> Seq<
        SelectedOutputView,
    > {
        match run_options {
            Some(options) => options.outputs.selection(self.outputs@),
            None => every_output(self.outputs@),
        }
    }

    /// What a run sends to the runtime: values at `addresses` for the inputs of these
    /// `names`, and a place for each selected output.
    pub open spec fn run_request(
        &self,
        names: Seq<Seq<char>>,
        addresses: Seq<usize>,
        run_options: Option<&UntypedRunOptions>,
    ) -> RunRequestView {
        RunRequestView {
            session: self.inner.session_ptr@,
            run_options: match run_options {
                Some(options) => options.ptr@,
                None => 0,
            },
            input_names: c_strings(names),
            input_values: addresses,
            output_names: c_strings(selected_names(self.selection(run_options))),
            output_values: selected_addresses(self.selection(run_options)),
        }
    }

    /// The call that runs the model on values at hand, whatever they were handed in as.
    fn prepare_inner(
        &self,
        input_names: &InputNames,
        input_values: &InputValues,
        run_options: Option<&UntypedRunOptions>,
    ) -> (result: Result<(RunRequest, PendingRun), Error>)
        requires
            held_values(*input_values).len() <= held_names(*input_names).len() ==> {
                &&& all_nul_free(held_names(*input_names))
                &&& all_nul_free(selected_names(self.selection(run_options)))
            },
        ensures
            match result {
                Ok((request, pending)) => {
                    &&& held_values(*input_values).len() <= held_names(*input_names).len()
                    &&& request@ == self.run_request(
                        held_names(*input_names),
                        held_values(*input_values),
                        run_options,
                    )
                    &&& selected_views(pending.selected@) == self.selection(run_options)
                    &&& pending.session == self.inner
                },
                Err(error) => {
                    &&& held_values(*input_values).len() > held_names(*input_names).len()
                    &&& too_many_inputs(
                        error,
                        held_values(*input_values).len(),
                        held_names(*input_names).len(),
                    )
                },
            },
    {
        let names = input_names.as_slice();
        let values = input_values.as_slice();
        if values.len() > names.len() {
            return Err(refuse_inputs(values.len(), names.len()));
        }
        let selected = match run_options {
            Some(options) => options.outputs.resolve_outputs(&self.outputs),
            None => select_every(&self.outputs),
        };
        let ghost selection = self.selection(run_options);

        let mut output_values: Vec<usize> = Vec::new();
        let mut output_names: Vec<Vec<u8>> = Vec::new();
        let mut i: usize = 0;
        while i < selected.len()
            invariant
                i <= selected.len(),
                selected_views(selected@) == selection,
                all_nul_free(selected_names(selection)),
                output_values.len() == i,
                output_names.len() == i,
                forall|j: int|
                    0 <= j < i ==> #[trigger] output_values@[j] == selected_addresses(selection)[j],
                forall|j: int|
                    0 <= j < i ==> (#[trigger] output_names@[j])@ == c_strings(
                        selected_names(selection),
                    )[j],
            decreases selected.len() - i,
        {
            let output = &selected[i];
            assert(selection[i as int] == output@);
            let address = match &output.value {
                Some(value) => value.ptr(),
                None => 0,
            };
            assert(nul_free(selected_names(selection)[i as int]));
            output_values.push(address);
            output_names.push(to_c_string(output.name.as_str()));
            i += 1;
        }

        let mut input_value_ptrs: Vec<usize> = Vec::new();
        let mut i: usize = 0;
        while i < values.len()
            invariant
                i <= values.len(),
                values@.map_values(|value: &SessionInputValue| value.address()) == held_values(
                    *input_values,
                ),
                input_value_ptrs@ =~= held_values(*input_values).take(i as int),
            decreases values.len() - i,
        {
            input_value_ptrs.push(values[i].ptr());
            i += 1;
        }

        let mut input_name_bytes: Vec<Vec<u8>> = Vec::new();
        let mut i: usize = 0;
        while i < names.len()
            invariant
                i <= names.len(),
                names@.map_values(|name: &str| name@) == held_names(*input_names),
                all_nul_free(held_names(*input_names)),
                input_name_bytes.len() == i,
                forall|j: int|
                    0 <= j < i ==> (#[trigger] input_name_bytes@[j])@ == c_strings(
                        held_names(*input_names),
                    )[j],
            decreases names.len() - i,
        {
            assert(nul_free(held_names(*input_names)[i as int]));
            input_name_bytes.push(to_c_string(names[i]));
            i += 1;
        }

        let request = RunRequest {
            session: self.inner.ptr(),
            run_options: match run_options {
                Some(options) => options.ptr.addr(),
                None => 0,
            },
            input_names: input_name_bytes,
            input_values: input_value_ptrs,
            output_names,
            output_values,
        };
        assert(request@ =~= self.run_request(
            held_names(*input_names),
            held_values(*input_values),
            run_options,
        ));
        Ok((request, PendingRun { selected, session: share(&self.inner) }))
    }

    /// Whether a run with these values is given more of them than it has names for.
    pub open spec fn refuses<const N: usize>(&self, input_values: SessionInputs<N>) -> bool {
        input_values.addresses().len() > input_values.names(self.inputs@).len()
    }

    /// Whether every name that a run with these values sends can be sent.
    pub open spec fn can_name<const N: usize>(
        &self,
        input_values: SessionInputs<N>,
        run_options: Option<&UntypedRunOptions>,
    ) -> bool {
        !self.refuses(input_values) ==> {
            &&& all_nul_free(input_values.names(self.inputs@))
            &&& all_nul_free(selected_names(self.selection(run_options)))
        }
    }

    /// What a run with these values sends to the runtime.
    pub open spec fn request_of<const N: usize>(
        &self,
        input_values: SessionInputs<N>,
        run_options: Option<&UntypedRunOptions>,
    ) -> RunRequestView {
        self.run_request(
            input_values.names(self.inputs@),
            input_values.addresses(),
            run_options,
        )
    }

    /// Whether `engine` can be called with what a run with these values sends, and
    /// leaves no output out when it succeeds. Of a run that is refused nothing is asked:
    /// it does not call `engine`.
    pub open spec fn served<const N: usize, F: FnOnce(RunRequest) -> Result<Vec<usize>, Error>>(
        &self,
        input_values: SessionInputs<N>,
        run_options: Option<&UntypedRunOptions>,
        engine: F,
    ) -> bool {
        !self.refuses(input_values) ==> {
            &&& forall|request: RunRequest|
                request@ == self.request_of(input_values, run_options)
                    ==> #[trigger] engine.requires((request,))
            &&& forall|request: RunRequest, reply: Result<Vec<usize>, Error>|
                request@ == self.request_of(input_values, run_options)
                    && #[trigger] engine.ensures((request,), reply) ==> (reply matches Ok(written)
                    ==> fills(self.selection(run_options), written@))
        }
    }

    /// Whether `result` is what a run with these values gives when `engine` makes the
    /// call: too many values are refused, and `engine` is not called; otherwise it is
    /// called once, with exactly the request for these values, and its answer decides.
    pub open spec fn ran<const N: usize, F: FnOnce(RunRequest) -> Result<Vec<usize>, Error>>(
        &self,
        input_values: SessionInputs<N>,
        run_options: Option<&UntypedRunOptions>,
        engine: F,
        result: Result<SessionOutputs, Error>,
    ) -> bool {
        if self.refuses(input_values) {
            result matches Err(error) && too_many_inputs(
                error,
                input_values.addresses().len(),
                input_values.names(self.inputs@).len(),
            )
        } else {
            exists|request: RunRequest, reply: Result<Vec<usize>, Error>|
                {
                    &&& request@ == self.request_of(input_values, run_options)
                    &&& #[trigger] engine.ensures((request,), reply)
                    &&& answered(self.selection(run_options), self.inner, reply, result)
                }
        }
    }

    /// The call that runs the model on these values, and what is needed to make sense
    /// of the answer.
    pub fn prepare<'i, 'v, const N: usize>(
        &self,
        input_values: &SessionInputs<'i, 'v, N>,
        run_options: Option<&UntypedRunOptions>,
    ) -> (result: Result<(RunRequest, PendingRun), Error>)
        requires
            self.can_name(*input_values, run_options),
        ensures
            match result {
                Ok((request, pending)) => {
                    &&& !self.refuses(*input_values)
                    &&& request@ == self.request_of(*input_values, run_options)
                    &&& selected_views(pending.selected@) == self.selection(run_options)
                    &&& pending.session == self.inner
                },
                Err(error) => {
                    &&& self.refuses(*input_values)
                    &&& too_many_inputs(
                        error,
                        input_values.addresses().len(),
                        input_values.names(self.inputs@).len(),
                    )
                },
            },
    {
        match input_values {
            SessionInputs::ValueSlice(values) => self.prepare_inner(
                &InputNames::of_inputs(&self.inputs),
                &InputValues::of_slice(values),
                run_options,
            ),
            SessionInputs::ValueArray(values) => self.prepare_inner(
                &InputNames::of_inputs(&self.inputs),
                &InputValues::of_slice(values.as_slice()),
                run_options,
            ),
            SessionInputs::ValueMap(entries) => self.prepare_inner(
                &InputNames::of_entries(entries),
                &InputValues::of_entries(entries),
                run_options,
            ),
        }
    }

    /// Prepares a run, has `engine` make the call, and makes sense of the answer.
    fn run_inner<
        'i,
        'v,
        const N: usize,
        F: FnOnce(RunRequest) -> Result<Vec<usize>, Error>,
    >(
        &self,
        input_values: &SessionInputs<'i, 'v, N>,
        run_options: Option<&UntypedRunOptions>,
        engine: F,
    ) -> (result: Result<SessionOutputs, Error>)
        requires
            self.can_name(*input_values, run_options),
            self.served(*input_values, run_options, engine),
        ensures
            self.ran(*input_values, run_options, engine, result),
    {
        match self.prepare(input_values, run_options) {
            Ok((request, pending)) => {
                let ghost sent = request;
                let reply = engine(request);
                assert(engine.ensures((sent,), reply));
                pending.finish(reply)
            },
            Err(error) => Err(error),
        }
    }

    /// A builder of sessions. `create` makes the call that creates an options object.
    pub fn builder<F: FnOnce() -> Result<Pointer, Error>>(create: F) -> (result: Result<
        SessionBuilder,
        Error,
    >)
        requires
            create.requires(()),
        ensures
            exists|options: Result<Pointer, Error>| #[trigger]
                create.ensures((), options) && built(options, result),
    {
        SessionBuilder::new(create())
    }

    /// The inputs that the model takes.
    pub fn inputs(&self) -> (inputs: &[Input])
        ensures
            inputs@ == self.inputs@,
    {
        self.inputs.as_slice()
    }

    /// The outputs that the model has.
    pub fn outputs(&self) -> (outputs: &[Output])
        ensures
            outputs@ == self.outputs@,
    {
        self.outputs.as_slice()
    }

    /// Runs the model on `input_values`, and gives all its outputs. `engine` makes the
    /// call: it is handed the arguments of the runtime's `Run`, and answers with the
    /// addresses that the runtime left in the places for the outputs.
    pub fn run<'i, 'v, const N: usize, F: FnOnce(RunRequest) -> Result<Vec<usize>, Error>>(
        &mut self,
        input_values: SessionInputs<'i, 'v, N>,
        engine: F,
    ) -> (result: Result<SessionOutputs, Error>)
        requires
            old(self).can_name(input_values, None),
            old(self).served(input_values, None, engine),
        ensures
            *final(self) == *old(self),
            old(self).ran(input_values, None, engine, result),
    {
        self.run_inner(&input_values, None, engine)
    }

    /// Runs the model on `input_values` with `run_options`, and gives the outputs that
    /// they ask for. `engine` makes the call, as in [`Session::run`].
    pub fn run_with_options<
        'i,
        'v,
        O: SelectedOutputMarker,
        const N: usize,
        F: FnOnce(RunRequest) -> Result<Vec<usize>, Error>,
    >(
        &mut self,
        input_values: SessionInputs<'i, 'v, N>,
        run_options: &RunOptions<O>,
        engine: F,
    ) -> (result: Result<SessionOutputs, Error>)
        requires
            old(self).can_name(input_values, Some(&run_options.inner)),
            old(self).served(input_values, Some(&run_options.inner), engine),
        ensures
            *final(self) == *old(self),
            old(self).ran(input_values, Some(&run_options.inner), engine, result),
    {
        self.run_inner(&input_values, Some(&run_options.inner), engine)
    }

    /// What the session shares with everything that came out of it.
    pub fn inner(&self) -> (inner: Arc<SharedSessionInner>)
        ensures
            inner == self.inner,
    {
        share(&self.inner)
    }
}

impl AsPointer for Session {
    open spec fn address(&self) -> usize {
        self.inner.session_ptr@
    }

    fn ptr(&self) -> usize {
        self.inner.session_ptr.addr()
    }
}

} // verus!
