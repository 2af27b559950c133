//! What holds of every run.

use crate::error::{Error, ErrorCode};
use crate::io_binding::IoBinding;
use crate::session::bound::{
    none_null, AfterBoundRun, BoundRunRequest, FetchRequest, FetchedOutputs, FreeRequest,
};
use crate::session::input::{SessionInputValue, SessionInputs};
use crate::session::output::{output_names, SessionOutputs};
use crate::session::request::{
    answered, fills, run_outputs, selected_addresses, selected_names, RunRequest, RunRequestView,
};
use crate::session::run_options::{OutputSelector, SelectedOutputView, UntypedRunOptions};
use crate::session::{Session, SharedSessionInner};
use crate::text::{c_string, c_strings, decimal, law_c_string_reads_back};
use crate::value::ValueView;
use std::sync::Arc;
use vstd::prelude::*;
use vstd::utf8::decode_utf8;

verus! {

/// Values without names are refused exactly where there are more of them than the model
/// has inputs.
pub proof fn law_positional_values_are_counted<const N: usize>(
    session: Session,
    slice: &[SessionInputValue],
    array: [SessionInputValue; N],
)
    ensures
        session.refuses(SessionInputs::<N>::ValueSlice(slice)) <==> slice@.len()
            > session.inputs@.len(),
        session.refuses(SessionInputs::<N>::ValueArray(array)) <==> array@.len()
            > session.inputs@.len(),
{
}

/// Values with names are never refused.
pub proof fn law_named_values_are_accepted<const N: usize>(
    session: Session,
    entries: Vec<(String, SessionInputValue)>,
)
    ensures
        !session.refuses(SessionInputs::<N>::ValueMap(entries)),
{
}

/// A value goes to the runtime at the position of its name, and the name that the runtime
/// reads there is the one that the value is for.
pub proof fn law_values_meet_their_names<const N: usize>(
    session: Session,
    input_values: SessionInputs<N>,
    run_options: Option<&UntypedRunOptions>,
    i: int,
)
    requires
        !session.refuses(input_values),
        session.can_name(input_values, run_options),
        0 <= i < input_values.addresses().len(),
    ensures
        i < session.request_of(input_values, run_options).input_names.len(),
        session.request_of(input_values, run_options).input_values[i]
            == input_values.addresses()[i],
        session.request_of(input_values, run_options).input_names[i] == c_string(
            input_values.names(session.inputs@)[i],
        ),
        decode_utf8(session.request_of(input_values, run_options).input_names[i].drop_last())
            == input_values.names(session.inputs@)[i],
{
    law_c_string_reads_back(input_values.names(session.inputs@)[i]);
}

/// An array of values runs as a slice of the same values does.
pub proof fn law_array_runs_as_slice<const N: usize, const M: usize>(
    session: Session,
    array: [SessionInputValue; N],
    slice: &[SessionInputValue],
    run_options: Option<&UntypedRunOptions>,
)
    requires
        array@ == slice@,
    ensures
        session.refuses(SessionInputs::<N>::ValueArray(array)) == session.refuses(
            SessionInputs::<M>::ValueSlice(slice),
        ),
        session.can_name(SessionInputs::<N>::ValueArray(array), run_options) == session.can_name(
            SessionInputs::<M>::ValueSlice(slice),
            run_options,
        ),
        session.request_of(SessionInputs::<N>::ValueArray(array), run_options)
            == session.request_of(SessionInputs::<M>::ValueSlice(slice), run_options),
{
}

/// Values for the first inputs of a model run the same whether they are named or not: the
/// runtime is sent the same values, and reads the same names for them, and everything else
/// is the same.
pub proof fn law_named_values_run_as_positional<const N: usize, const M: usize>(
    session: Session,
    slice: &[SessionInputValue],
    entries: Vec<(String, SessionInputValue)>,
    run_options: Option<&UntypedRunOptions>,
)
    requires
        slice@.len() <= session.inputs@.len(),
        entries@.len() == slice@.len(),
        forall|i: int|
            0 <= i < slice@.len() ==> {
                &&& (#[trigger] entries@[i]).0@ == session.inputs@[i].name@
                &&& entries@[i].1 == slice@[i]
            },
    ensures
        ({
            let positional = session.request_of(
                SessionInputs::<N>::ValueSlice(slice),
                run_options,
            );
            let named = session.request_of(SessionInputs::<M>::ValueMap(entries), run_options);
            &&& !session.refuses(SessionInputs::<N>::ValueSlice(slice))
            &&& !session.refuses(SessionInputs::<M>::ValueMap(entries))
            &&& named.session == positional.session
            &&& named.run_options == positional.run_options
            &&& named.input_values == positional.input_values
            &&& named.input_names == positional.input_names.take(slice@.len() as int)
            &&& named.output_names == positional.output_names
            &&& named.output_values == positional.output_values
        }),
{
    let positional = session.request_of(SessionInputs::<N>::ValueSlice(slice), run_options);
    let named = session.request_of(SessionInputs::<M>::ValueMap(entries), run_options);
    assert(named.input_values =~= positional.input_values);
    assert(named.input_names =~= positional.input_names.take(slice@.len() as int));
}

/// Options that ask for every output change nothing but which options the runtime is
/// handed.
pub proof fn law_plain_run_asks_for_everything<const N: usize>(
    session: Session,
    input_values: SessionInputs<N>,
    run_options: &UntypedRunOptions,
)
    requires
        run_options.outputs == OutputSelector::All,
    ensures
        session.selection(Some(run_options)) == session.selection(None),
        session.request_of(input_values, None).run_options == 0,
        session.request_of(input_values, Some(run_options)) == (RunRequestView {
            run_options: run_options.ptr@,
            ..session.request_of(input_values, None)
        }),
{
}

/// A run without options gives every output of the model, under its name and in the
/// model's order, and leaves it to the runtime to allocate each of them.
pub proof fn law_plain_run_gives_every_output<const N: usize>(
    session: Session,
    input_values: SessionInputs<N>,
    written: Seq<usize>,
)
    ensures
        run_outputs(session.selection(None), session.inner, written).names
            == output_names(session.outputs@),
        session.request_of(input_values, None).output_names == c_strings(
            output_names(session.outputs@),
        ),
        forall|i: int|
            0 <= i < session.outputs@.len() ==> #[trigger] session.request_of(
                input_values,
                None,
            ).output_values[i] == 0,
        session.request_of(input_values, None).output_values.len() == session.outputs@.len(),
{
    assert(selected_names(session.selection(None)) =~= output_names(
        session.outputs@,
    ));
}

/// Outputs come back under the names that they were asked for by, and there is one value
/// for each name.
pub proof fn law_outputs_answer_the_request<const N: usize>(
    session: Session,
    input_values: SessionInputs<N>,
    run_options: Option<&UntypedRunOptions>,
    written: Seq<usize>,
)
    ensures
        session.request_of(input_values, run_options).output_names == c_strings(
            run_outputs(session.selection(run_options), session.inner, written).names,
        ),
        run_outputs(session.selection(run_options), session.inner, written).values.len()
            == run_outputs(session.selection(run_options), session.inner, written).names.len(),
        session.request_of(input_values, run_options).output_values.len() == run_outputs(
            session.selection(run_options),
            session.inner,
            written,
        ).values.len(),
{
}

/// Where no name is asked for twice, each output of a run is found under the name that it
/// was asked for by, and no other name finds one.
pub proof fn law_outputs_are_found_by_name(
    selected: Seq<SelectedOutputView>,
    session: Arc<SharedSessionInner>,
    written: Seq<usize>,
)
    requires
        selected_names(selected).no_duplicates(),
    ensures
        forall|i: int|
            0 <= i < selected.len() ==> run_outputs(selected, session, written).value_of(
                (#[trigger] selected[i]).name,
            ) == Some(run_outputs(selected, session, written).values[i]),
        forall|name: Seq<char>|
            !selected_names(selected).contains(name) ==> #[trigger] run_outputs(
                selected,
                session,
                written,
            ).value_of(name) is None,
{
    let names = selected_names(selected);
    assert forall|i: int| 0 <= i < selected.len() implies run_outputs(
        selected,
        session,
        written,
    ).value_of((#[trigger] selected[i]).name) == Some(
        run_outputs(selected, session, written).values[i],
    ) by {
        assert(names[i] == selected[i].name);
        names.index_of_first_ensures(names[i]);
    }
    assert forall|name: Seq<char>| !names.contains(name) implies #[trigger] run_outputs(
        selected,
        session,
        written,
    ).value_of(name) is None by {
        names.index_of_first_ensures(name);
    }
}

/// A value that an output was to be written into is the one that comes back, whatever
/// the runtime left in its place.
pub proof fn law_given_outputs_stay(
    selected: Seq<SelectedOutputView>,
    session: Arc<SharedSessionInner>,
    written: Seq<usize>,
    i: int,
)
    requires
        0 <= i < selected.len(),
        selected[i].value is Some,
    ensures
        selected_addresses(selected)[i] == selected[i].value->0.address,
        run_outputs(selected, session, written).values[i] == selected[i].value->0,
{
}

/// An output that the runtime allocated is at the address that it left behind, which is
/// not null, and keeps the session alive.
pub proof fn law_allocated_outputs_keep_the_session(
    selected: Seq<SelectedOutputView>,
    session: Arc<SharedSessionInner>,
    written: Seq<usize>,
    i: int,
)
    requires
        fills(selected, written),
        0 <= i < selected.len(),
        selected[i].value is None,
    ensures
        selected_addresses(selected)[i] == 0,
        run_outputs(selected, session, written).values[i] == (ValueView {
            address: written[i],
            session: Some(session),
        }),
        written[i] != 0,
{
}

/// The runtime's answer decides what a run gives: the same answer gives the same outputs,
/// or the same error.
pub proof fn law_answer_decides(
    selected: Seq<SelectedOutputView>,
    session: Arc<SharedSessionInner>,
    reply: Result<Vec<usize>, Error>,
    first: Result<SessionOutputs, Error>,
    second: Result<SessionOutputs, Error>,
)
    requires
        answered(selected, session, reply, first),
        answered(selected, session, reply, second),
    ensures
        first is Ok <==> reply is Ok,
        second is Ok <==> reply is Ok,
        first matches Ok(outputs) ==> outputs@ == second->Ok_0@,
        first matches Err(error) ==> second == first && reply == Err::<Vec<usize>, Error>(error),
{
}

/// A run that is given too many values is answered with an invalid argument, and told how
/// many it was given and how many are accepted. No runtime has a part in that.
pub proof fn law_refused_run_says_why<
    const N: usize,
    F: FnOnce(RunRequest) -> Result<Vec<usize>, Error>,
>(
    session: Session,
    input_values: SessionInputs<N>,
    run_options: Option<&UntypedRunOptions>,
    engine: F,
    result: Result<SessionOutputs, Error>,
)
    requires
        session.refuses(input_values),
        session.ran(input_values, run_options, engine, result),
    ensures
        result matches Err(error) && error.code == ErrorCode::InvalidArgument && error.msg@
            == decimal(input_values.addresses().len())
            + " inputs were provided, but the model only accepts "@ + decimal(
            session.inputs@.len(),
        ) + "."@,
{
}

/// A run that is not refused fails only with the error that the runtime answered the
/// request with.
pub proof fn law_other_failures_are_the_runtimes<
    const N: usize,
    F: FnOnce(RunRequest) -> Result<Vec<usize>, Error>,
>(
    session: Session,
    input_values: SessionInputs<N>,
    run_options: Option<&UntypedRunOptions>,
    engine: F,
    result: Result<SessionOutputs, Error>,
)
    requires
        !session.refuses(input_values),
        session.ran(input_values, run_options, engine, result),
        result is Err,
    ensures
        exists|request: RunRequest|
            {
                &&& request@ == session.request_of(input_values, run_options)
                &&& #[trigger] engine.ensures(
                    (request,),
                    Err::<Vec<usize>, Error>(result->Err_0),
                )
            },
{
}

/// A run without options that succeeds gives one value for each output of the model,
/// under the model's names and in the model's order.
pub proof fn law_run_gives_the_models_outputs<
    const N: usize,
    F: FnOnce(RunRequest) -> Result<Vec<usize>, Error>,
>(
    session: Session,
    input_values: SessionInputs<N>,
    engine: F,
    result: Result<SessionOutputs, Error>,
)
    requires
        session.ran(input_values, None, engine, result),
        result is Ok,
    ensures
        result->Ok_0@.names == output_names(session.outputs@),
        result->Ok_0@.values.len() == session.outputs@.len(),
{
    assert(selected_names(session.selection(None)) =~= output_names(session.outputs@));
}

/// A run that succeeds gives the outputs that its options ask for, and nothing else, in
/// the order in which they ask for them. A value that an output was to be written into is
/// the one that comes back.
pub proof fn law_run_gives_the_selected_outputs<
    const N: usize,
    F: FnOnce(RunRequest) -> Result<Vec<usize>, Error>,
>(
    session: Session,
    input_values: SessionInputs<N>,
    run_options: &UntypedRunOptions,
    engine: F,
    result: Result<SessionOutputs, Error>,
)
    requires
        session.ran(input_values, Some(run_options), engine, result),
        result is Ok,
    ensures
        result->Ok_0@.names == selected_names(run_options.outputs.selection(session.outputs@)),
        result->Ok_0@.values.len() == result->Ok_0@.names.len(),
        forall|i: int|
            0 <= i < result->Ok_0@.values.len() ==> (run_options.outputs.selection(
                session.outputs@,
            )[i].value matches Some(value) ==> #[trigger] result->Ok_0@.values[i] == value),
{
}

/// A bound run fetches outputs exactly where it succeeded and some are bound.
pub proof fn law_bound_run_fetches_what_is_bound(
    session: Session,
    binding: IoBinding,
    status: Result<(), Error>,
    next: AfterBoundRun,
)
    requires
        session.follows_bound_run(binding, status, next),
    ensures
        next is Fetch <==> status is Ok && binding.output_values@.len() > 0,
        next matches AfterBoundRun::Done(result) ==> (result is Err <==> status is Err),
        next matches AfterBoundRun::Done(result) ==> (result matches Ok(outputs)
            ==> outputs@.names.len() == 0 && outputs@.values.len() == 0),
{
}

/// The outputs of a bound run come back under the names that they are bound by. Each is
/// at the address that was fetched, which is not null, and keeps the session alive.
pub proof fn law_bound_outputs_keep_the_session(
    session: Session,
    binding: IoBinding,
    addresses: Seq<usize>,
    i: int,
)
    requires
        none_null(addresses),
        0 <= i < addresses.len(),
    ensures
        session.bound_outputs(binding, addresses).names == binding.output_names(),
        session.bound_outputs(binding, addresses).values.len() == addresses.len(),
        session.bound_outputs(binding, addresses).values[i] == (ValueView {
            address: addresses[i],
            session: Some(session.inner),
        }),
        addresses[i] != 0,
{
}

/// A bound run that succeeds gives outputs under exactly the names that are bound.
pub proof fn law_bound_run_gives_the_bound_outputs<
    Run: FnOnce(BoundRunRequest) -> Result<(), Error>,
    Fetch: FnOnce(FetchRequest) -> Result<FetchedOutputs, Error>,
    Free: FnOnce(FreeRequest),
>(
    session: Session,
    binding: IoBinding,
    run: Run,
    fetch: Fetch,
    free: Free,
    result: Result<SessionOutputs, Error>,
)
    requires
        session.bound_ran(binding, None, run, fetch, free, result),
        result is Ok,
    ensures
        result->Ok_0@.names == binding.output_names(),
{
    if binding.output_values@.len() == 0 {
        assert(binding.output_names() =~= Seq::empty());
    }
}

/// Where outputs were fetched, the array that they came in is given back to the allocator
/// that it came from.
pub proof fn law_fetched_array_is_freed<
    Run: FnOnce(BoundRunRequest) -> Result<(), Error>,
    Fetch: FnOnce(FetchRequest) -> Result<FetchedOutputs, Error>,
    Free: FnOnce(FreeRequest),
>(
    session: Session,
    binding: IoBinding,
    run: Run,
    fetch: Fetch,
    free: Free,
    result: Result<SessionOutputs, Error>,
)
    requires
        session.bound_ran(binding, None, run, fetch, free, result),
        result is Ok,
        binding.output_values@.len() > 0,
    ensures
        exists|fetched: FetchedOutputs|
            {
                &&& #[trigger] fetch.ensures(
                    (session.fetch_request(binding),),
                    Ok::<FetchedOutputs, Error>(fetched),
                )
                &&& free.ensures(
                    (
                        FreeRequest {
                            allocator: session.fetch_request(binding).allocator,
                            block: fetched.array@,
                        },
                    ),
                    (),
                )
                &&& result->Ok_0@ == session.bound_outputs(binding, fetched.values@)
            },
{
}

} // verus!
