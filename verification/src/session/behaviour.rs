//! What the runtime is sent and what a run gives back, place by place.
//!
//! Each law speaks of the lists themselves: of the values handed in and the objects that
//! they hold, of the model's inputs and outputs, of the options and bindings as they were
//! made, of the argument lists as the runtime gets them, and of the outputs as the caller
//! gets them.

use crate::error::{Error, ErrorCode};
use crate::io_binding::IoBinding;
use crate::memory::Allocator;
use crate::pointer::AsPointer;
use crate::session::bound::{
    none_null, AfterBoundRun, BoundRunRequest, FetchRequest, FetchedOutputs, FreeRequest,
};
use crate::session::input::{SessionInputValue, SessionInputs};
use crate::session::output::SessionOutputs;
use crate::session::request::{answered, fills, selected_names, PendingRun, RunRequest};
use crate::session::run_options::{
    law_every_output_is_selected, law_listed_outputs_are_selected, selected_views,
    NoSelectedOutputs, OutputSelector, RunOptions, SelectedOutput, UntypedRunOptions,
};
use crate::session::{too_many_inputs, Session, SharedSessionInner};
use crate::text::{all_nul_free, decimal, law_c_string_is_utf8_and_zero, nul_free};
use crate::value::Value;
use std::sync::Arc;
use vstd::prelude::*;
use vstd::utf8::encode_utf8;

verus! {

/// Everything that stands for an object of the runtime is at the address that it holds.
pub proof fn law_objects_are_where_they_say(
    session: Session,
    inner: SharedSessionInner,
    allocator: Allocator,
    value: Value,
    binding: IoBinding,
    options: RunOptions<NoSelectedOutputs>,
)
    ensures
        session.address() == session.inner.session_ptr@,
        inner.address() == inner.session_ptr@,
        allocator.address() == allocator.ptr@,
        value.address() == value.inner.ptr@,
        binding.address() == binding.ptr@,
        options.address() == options.inner.ptr@,
        SessionInputValue::View(&value).address() == value.inner.ptr@,
        SessionInputValue::Owned(value).address() == value.inner.ptr@,
{
}

/// A run on a slice sends the address in each value's own object, lent or owned and
/// wherever it came from, at the value's position, under the names of the model's inputs.
pub proof fn law_slice_reaches_the_runtime<const N: usize>(
    session: Session,
    slice: &[SessionInputValue],
    run_options: Option<&UntypedRunOptions>,
    request: RunRequest,
)
    requires
        request@ == session.request_of(SessionInputs::<N>::ValueSlice(slice), run_options),
    ensures
        request.input_values@.len() == slice@.len(),
        forall|i: int|
            0 <= i < slice@.len() ==> #[trigger] request.input_values@[i] == (
            match slice@[i] {
                SessionInputValue::View(value) => value.inner.ptr@,
                SessionInputValue::Owned(value) => value.inner.ptr@,
            }),
        request.input_names@.len() == session.inputs@.len(),
        forall|i: int|
            0 <= i < session.inputs@.len() ==> (#[trigger] request.input_names@[i])@ == encode_utf8(
                session.inputs@[i].name@,
            ).push(0),
{
    let sent = request@;
    assert(sent.input_values == request.input_values@);
    assert(sent.input_names.len() == request.input_names@.len());
    assert forall|i: int| 0 <= i < session.inputs@.len() implies (
    #[trigger] request.input_names@[i])@ == encode_utf8(session.inputs@[i].name@).push(0) by {
        assert(sent.input_names[i] == request.input_names@[i]@);
    }
}

/// A run on an array sends the address in each value's own object, lent or owned and
/// wherever it came from, at the value's position, under the names of the model's inputs.
pub proof fn law_array_reaches_the_runtime<const N: usize>(
    session: Session,
    array: [SessionInputValue; N],
    run_options: Option<&UntypedRunOptions>,
    request: RunRequest,
)
    requires
        request@ == session.request_of(SessionInputs::<N>::ValueArray(array), run_options),
    ensures
        request.input_values@.len() == array@.len(),
        forall|i: int|
            0 <= i < array@.len() ==> #[trigger] request.input_values@[i] == (
            match array@[i] {
                SessionInputValue::View(value) => value.inner.ptr@,
                SessionInputValue::Owned(value) => value.inner.ptr@,
            }),
        request.input_names@.len() == session.inputs@.len(),
        forall|i: int|
            0 <= i < session.inputs@.len() ==> (#[trigger] request.input_names@[i])@ == encode_utf8(
                session.inputs@[i].name@,
            ).push(0),
{
    let sent = request@;
    assert(sent.input_values == request.input_values@);
    assert(sent.input_names.len() == request.input_names@.len());
    assert forall|i: int| 0 <= i < session.inputs@.len() implies (
    #[trigger] request.input_names@[i])@ == encode_utf8(session.inputs@[i].name@).push(0) by {
        assert(sent.input_names[i] == request.input_names@[i]@);
    }
}

/// A run on named values sends the address in each value's own object, lent or owned and
/// wherever it came from, at the value's position, under the name that it was given with.
pub proof fn law_map_reaches_the_runtime<const N: usize>(
    session: Session,
    entries: Vec<(String, SessionInputValue)>,
    run_options: Option<&UntypedRunOptions>,
    request: RunRequest,
)
    requires
        request@ == session.request_of(SessionInputs::<N>::ValueMap(entries), run_options),
    ensures
        request.input_values@.len() == entries@.len(),
        forall|i: int|
            0 <= i < entries@.len() ==> #[trigger] request.input_values@[i] == (
            match entries@[i].1 {
                SessionInputValue::View(value) => value.inner.ptr@,
                SessionInputValue::Owned(value) => value.inner.ptr@,
            }),
        request.input_names@.len() == entries@.len(),
        forall|i: int|
            0 <= i < entries@.len() ==> (#[trigger] request.input_names@[i])@ == encode_utf8(
                entries@[i].0@,
            ).push(0),
{
    let sent = request@;
    assert(sent.input_values == request.input_values@);
    assert(sent.input_names.len() == request.input_names@.len());
    assert forall|i: int| 0 <= i < entries@.len() implies (
    #[trigger] request.input_names@[i])@ == encode_utf8(entries@[i].0@).push(0) by {
        assert(sent.input_names[i] == request.input_names@[i]@);
    }
}

/// A run is of its own session, with the options that it was given or none.
pub proof fn law_request_is_for_the_session<const N: usize>(
    session: Session,
    input_values: SessionInputs<N>,
    run_options: Option<&UntypedRunOptions>,
    request: RunRequest,
)
    requires
        request@ == session.request_of(input_values, run_options),
    ensures
        request.session == session.inner.session_ptr@,
        run_options is None ==> request.run_options == 0,
        run_options matches Some(options) ==> request.run_options == options.ptr@,
{
}

/// Without a list of outputs, a run asks for each output of the model by its name, and
/// hands the runtime no place for any.
pub proof fn law_request_names_every_output<const N: usize>(
    session: Session,
    input_values: SessionInputs<N>,
    run_options: Option<&UntypedRunOptions>,
    request: RunRequest,
)
    requires
        request@ == session.request_of(input_values, run_options),
        run_options matches Some(options) ==> options.outputs == OutputSelector::All,
    ensures
        request.output_names@.len() == session.outputs@.len(),
        request.output_values@.len() == session.outputs@.len(),
        forall|i: int|
            0 <= i < session.outputs@.len() ==> (#[trigger] request.output_names@[i])@
                == encode_utf8(session.outputs@[i].name@).push(0),
        forall|i: int|
            0 <= i < session.outputs@.len() ==> #[trigger] request.output_values@[i] == 0,
{
    let sent = request@;
    assert(sent.output_values == request.output_values@);
    assert(sent.output_names.len() == request.output_names@.len());
    assert forall|i: int| 0 <= i < session.outputs@.len() implies (
    #[trigger] request.output_names@[i])@ == encode_utf8(session.outputs@[i].name@).push(0) by {
        assert(sent.output_names[i] == request.output_names@[i]@);
    }
}

/// With a list of outputs, a run asks for exactly the listed ones, each by its listed name,
/// and hands the runtime the address in the object of the listed value, or none.
pub proof fn law_request_names_the_listed_outputs<const N: usize>(
    session: Session,
    input_values: SessionInputs<N>,
    run_options: &UntypedRunOptions,
    listed: Vec<SelectedOutput>,
    request: RunRequest,
)
    requires
        request@ == session.request_of(input_values, Some(run_options)),
        run_options.outputs == OutputSelector::Only(listed),
    ensures
        request.output_names@.len() == listed@.len(),
        request.output_values@.len() == listed@.len(),
        forall|i: int|
            0 <= i < listed@.len() ==> (#[trigger] request.output_names@[i])@ == encode_utf8(
                listed@[i].name@,
            ).push(0),
        forall|i: int|
            0 <= i < listed@.len() ==> #[trigger] request.output_values@[i] == (
            match listed@[i].value {
                Some(value) => value.inner.ptr@,
                None => 0,
            }),
{
    let sent = request@;
    assert(sent.output_values == request.output_values@);
    assert(sent.output_names.len() == request.output_names@.len());
    assert forall|i: int| 0 <= i < listed@.len() implies (#[trigger] request.output_names@[i])@
        == encode_utf8(listed@[i].name@).push(0) by {
        assert(sent.output_names[i] == request.output_names@[i]@);
    }
}

/// A run that was prepared without a list of outputs waits for every output of the model;
/// one that was prepared with a list waits for the listed outputs and holds their values.
pub proof fn law_pending_run_waits_for_what_was_asked(
    session: Session,
    run_options: Option<&UntypedRunOptions>,
    pending: PendingRun,
)
    requires
        selected_views(pending.selected@) == session.selection(run_options),
    ensures
        (run_options matches Some(options) ==> options.outputs == OutputSelector::All) ==> {
            &&& pending.selected@.len() == session.outputs@.len()
            &&& forall|i: int|
                0 <= i < session.outputs@.len() ==> {
                    &&& (#[trigger] pending.selected@[i]).name@ == session.outputs@[i].name@
                    &&& pending.selected@[i].value is None
                }
        },
        run_options matches Some(options) ==> (options.outputs matches OutputSelector::Only(listed)
            ==> {
            &&& pending.selected@.len() == listed@.len()
            &&& forall|i: int|
                0 <= i < listed@.len() ==> {
                    &&& (#[trigger] pending.selected@[i]).name@ == listed@[i].name@
                    &&& pending.selected@[i].value is Some <==> listed@[i].value is Some
                    &&& listed@[i].value matches Some(value) ==> {
                        &&& pending.selected@[i].value->0.inner.ptr@ == value.inner.ptr@
                        &&& pending.selected@[i].value->0.inner.session == value.inner.session
                    }
                }
        }),
{
    match run_options {
        Some(options) => match options.outputs {
            OutputSelector::All => {
                law_every_output_is_selected(session.outputs@, pending.selected@);
            },
            OutputSelector::Only(listed) => {
                law_listed_outputs_are_selected(listed, session.outputs@, pending.selected@);
            },
        },
        None => {
            law_every_output_is_selected(session.outputs@, pending.selected@);
        },
    }
}

/// The runtime's failure is the run's. When it succeeds, each output is under the name that
/// it was asked for by: with the value that it was to be written into, where there was one,
/// and otherwise with the object that the runtime left in the output's own place, which
/// keeps the session alive.
pub proof fn law_finished_run_reads_each_place(
    selected: Seq<SelectedOutput>,
    session: Arc<SharedSessionInner>,
    reply: Result<Vec<usize>, Error>,
    result: Result<SessionOutputs, Error>,
)
    requires
        answered(selected_views(selected), session, reply, result),
    ensures
        reply matches Err(error) ==> result == Err::<SessionOutputs, Error>(error),
        reply matches Ok(written) ==> {
            &&& result is Ok
            &&& result->Ok_0.names@.len() == selected.len()
            &&& result->Ok_0.values@.len() == selected.len()
            &&& forall|i: int|
                0 <= i < selected.len() ==> (#[trigger] result->Ok_0.names@[i])@
                    == selected[i].name@
            &&& forall|i: int|
                0 <= i < selected.len() && selected[i].value is None ==> {
                    &&& (#[trigger] result->Ok_0.values@[i]).inner.ptr@ == written@[i]
                    &&& result->Ok_0.values@[i].inner.session == Some(session)
                }
            &&& forall|i: int|
                0 <= i < selected.len() && selected[i].value is Some ==> {
                    &&& (#[trigger] result->Ok_0.values@[i]).inner.ptr@
                        == selected[i].value->0.inner.ptr@
                    &&& result->Ok_0.values@[i].inner.session
                        == selected[i].value->0.inner.session
                }
        },
{
    if let (Ok(written), Ok(outputs)) = (reply, result) {
        let views = selected_views(selected);
        assert(outputs@.names.len() == outputs.names@.len());
        assert(outputs@.values.len() == outputs.values@.len());
        assert forall|i: int| 0 <= i < selected.len() implies views[i]
            == (#[trigger] selected[i])@ by {}
        assert forall|i: int| 0 <= i < selected.len() implies (#[trigger] outputs.names@[i])@
            == selected[i].name@ by {
            assert(views[i] == selected[i]@);
            assert(outputs@.names[i] == outputs.names@[i]@);
        }
        assert forall|i: int| 0 <= i < selected.len() && selected[i].value is None implies {
            &&& (#[trigger] outputs.values@[i]).inner.ptr@ == written@[i]
            &&& outputs.values@[i].inner.session == Some(session)
        } by {
            assert(views[i] == selected[i]@);
            assert(outputs@.values[i] == outputs.values@[i]@);
        }
        assert forall|i: int| 0 <= i < selected.len() && selected[i].value is Some implies {
            &&& (#[trigger] outputs.values@[i]).inner.ptr@ == selected[i].value->0.inner.ptr@
            &&& outputs.values@[i].inner.session == selected[i].value->0.inner.session
        } by {
            assert(views[i] == selected[i]@);
            assert(outputs@.values[i] == outputs.values@[i]@);
        }
    }
}

/// A run that is not refused and has no list of outputs sends its request once. If the
/// runtime fails, so does the run, with the same error. If it succeeds, the run gives one
/// output for each output of the model, in order and by name: the object that the runtime
/// left in that output's own place, which keeps the session alive.
pub proof fn law_run_gives_what_the_runtime_left<
    const N: usize,
    F: FnOnce(RunRequest) -> Result<Vec<usize>, Error>,
>(
    session: Session,
    input_values: SessionInputs<N>,
    run_options: Option<&UntypedRunOptions>,
    engine: F,
    result: Result<SessionOutputs, Error>,
)
    requires
        session.ran(input_values, run_options, engine, result),
        !session.refuses(input_values),
        run_options matches Some(options) ==> options.outputs == OutputSelector::All,
    ensures
        exists|request: RunRequest, reply: Result<Vec<usize>, Error>|
            {
                &&& request@ == session.request_of(input_values, run_options)
                &&& #[trigger] engine.ensures((request,), reply)
                &&& reply matches Err(error) ==> result == Err::<SessionOutputs, Error>(error)
                &&& reply matches Ok(written) ==> {
                    &&& result is Ok
                    &&& result->Ok_0.names@.len() == session.outputs@.len()
                    &&& result->Ok_0.values@.len() == session.outputs@.len()
                    &&& forall|i: int|
                        0 <= i < session.outputs@.len() ==> (
                        #[trigger] result->Ok_0.names@[i])@ == session.outputs@[i].name@
                    &&& forall|i: int|
                        0 <= i < session.outputs@.len() ==> {
                            &&& (#[trigger] result->Ok_0.values@[i]).inner.ptr@ == written@[i]
                            &&& result->Ok_0.values@[i].inner.session == Some(session.inner)
                        }
                }
            },
{
    let (request, reply) = choose|request: RunRequest, reply: Result<Vec<usize>, Error>|
        {
            &&& request@ == session.request_of(input_values, run_options)
            &&& #[trigger] engine.ensures((request,), reply)
            &&& answered(session.selection(run_options), session.inner, reply, result)
        };
    let selected = Seq::new(
        session.outputs@.len(),
        |i: int| SelectedOutput { name: session.outputs@[i].name, value: None },
    );
    assert(selected_views(selected) =~= session.selection(run_options));
    law_finished_run_reads_each_place(selected, session.inner, reply, result);
    if let (Ok(written), Ok(outputs)) = (reply, result) {
        assert forall|i: int| 0 <= i < session.outputs@.len() implies (
        #[trigger] outputs.names@[i])@ == session.outputs@[i].name@ by {
            assert(selected[i].name == session.outputs@[i].name);
        }
        assert forall|i: int| 0 <= i < session.outputs@.len() implies {
            &&& (#[trigger] outputs.values@[i]).inner.ptr@ == written@[i]
            &&& outputs.values@[i].inner.session == Some(session.inner)
        } by {
            assert(selected[i].value is None);
        }
    }
    assert(engine.ensures((request,), reply));
}

/// A run that is not refused and lists its outputs sends its request once. If the runtime
/// fails, so does the run, with the same error. If it succeeds, the run gives exactly the
/// listed outputs, in order and by name: the listed value, where there is one, and
/// otherwise the object that the runtime left in that output's own place, which keeps the
/// session alive.
pub proof fn law_run_gives_the_listed_outputs<
    const N: usize,
    F: FnOnce(RunRequest) -> Result<Vec<usize>, Error>,
>(
    session: Session,
    input_values: SessionInputs<N>,
    run_options: &UntypedRunOptions,
    listed: Vec<SelectedOutput>,
    engine: F,
    result: Result<SessionOutputs, Error>,
)
    requires
        session.ran(input_values, Some(run_options), engine, result),
        !session.refuses(input_values),
        run_options.outputs == OutputSelector::Only(listed),
    ensures
        exists|request: RunRequest, reply: Result<Vec<usize>, Error>|
            {
                &&& request@ == session.request_of(input_values, Some(run_options))
                &&& #[trigger] engine.ensures((request,), reply)
                &&& reply matches Err(error) ==> result == Err::<SessionOutputs, Error>(error)
                &&& reply matches Ok(written) ==> {
                    &&& result is Ok
                    &&& result->Ok_0.names@.len() == listed@.len()
                    &&& result->Ok_0.values@.len() == listed@.len()
                    &&& forall|i: int|
                        0 <= i < listed@.len() ==> (#[trigger] result->Ok_0.names@[i])@
                            == listed@[i].name@
                    &&& forall|i: int|
                        0 <= i < listed@.len() && listed@[i].value is None ==> {
                            &&& (#[trigger] result->Ok_0.values@[i]).inner.ptr@ == written@[i]
                            &&& result->Ok_0.values@[i].inner.session == Some(session.inner)
                        }
                    &&& forall|i: int|
                        0 <= i < listed@.len() && listed@[i].value is Some ==> {
                            &&& (#[trigger] result->Ok_0.values@[i]).inner.ptr@
                                == listed@[i].value->0.inner.ptr@
                            &&& result->Ok_0.values@[i].inner.session
                                == listed@[i].value->0.inner.session
                        }
                }
            },
{
    let (request, reply) = choose|request: RunRequest, reply: Result<Vec<usize>, Error>|
        {
            &&& request@ == session.request_of(input_values, Some(run_options))
            &&& #[trigger] engine.ensures((request,), reply)
            &&& answered(session.selection(Some(run_options)), session.inner, reply, result)
        };
    law_finished_run_reads_each_place(listed@, session.inner, reply, result);
    assert(engine.ensures((request,), reply));
}

/// More values in a slice than the model has inputs are refused, and the error says how many
/// there were and how many are accepted; as many as that, or fewer, never are.
pub proof fn law_too_long_a_slice_is_refused<
    const N: usize,
    F: FnOnce(RunRequest) -> Result<Vec<usize>, Error>,
>(
    session: Session,
    slice: &[SessionInputValue],
    run_options: Option<&UntypedRunOptions>,
    engine: F,
    result: Result<SessionOutputs, Error>,
)
    requires
        session.ran(SessionInputs::<N>::ValueSlice(slice), run_options, engine, result),
    ensures
        session.refuses(SessionInputs::<N>::ValueSlice(slice)) <==> slice@.len()
            > session.inputs@.len(),
        slice@.len() > session.inputs@.len() ==> {
            &&& result is Err
            &&& result->Err_0.code == ErrorCode::InvalidArgument
            &&& result->Err_0.msg@ == decimal(slice@.len())
                + " inputs were provided, but the model only accepts "@ + decimal(
                session.inputs@.len(),
            ) + "."@
        },
{
}

/// More values in an array than the model has inputs are refused, and the error says how
/// many there were and how many are accepted; as many as that, or fewer, never are.
pub proof fn law_too_long_an_array_is_refused<
    const N: usize,
    F: FnOnce(RunRequest) -> Result<Vec<usize>, Error>,
>(
    session: Session,
    array: [SessionInputValue; N],
    run_options: Option<&UntypedRunOptions>,
    engine: F,
    result: Result<SessionOutputs, Error>,
)
    requires
        session.ran(SessionInputs::<N>::ValueArray(array), run_options, engine, result),
    ensures
        session.refuses(SessionInputs::<N>::ValueArray(array)) <==> N > session.inputs@.len(),
        N > session.inputs@.len() ==> {
            &&& result is Err
            &&& result->Err_0.code == ErrorCode::InvalidArgument
            &&& result->Err_0.msg@ == decimal(N as nat)
                + " inputs were provided, but the model only accepts "@ + decimal(
                session.inputs@.len(),
            ) + "."@
        },
{
}

/// What a refusal says: its kind, and both counts in words that do not depend on them.
pub proof fn law_refusal_gives_both_counts(error: Error, given: nat, accepted: nat)
    requires
        too_many_inputs(error, given, accepted),
    ensures
        error.code == ErrorCode::InvalidArgument,
        error.msg@ == decimal(given) + " inputs were provided, but the model only accepts "@
            + decimal(accepted) + "."@,
{
}

/// A run on unnamed values can be made wherever no name of an input of the model holds NUL,
/// nor one of an output that is asked for; one that is refused can always be made.
pub proof fn law_unnamed_values_can_be_sent<const N: usize>(
    session: Session,
    slice: &[SessionInputValue],
    array: [SessionInputValue; N],
    run_options: Option<&UntypedRunOptions>,
)
    requires
        forall|i: int, k: int|
            0 <= i < session.inputs@.len() && 0 <= k < session.inputs@[i].name@.len()
                ==> #[trigger] session.inputs@[i].name@[k] != '\0',
        all_nul_free(selected_names(session.selection(run_options))),
    ensures
        session.can_name(SessionInputs::<N>::ValueSlice(slice), run_options),
        session.can_name(SessionInputs::<N>::ValueArray(array), run_options),
{
    let names = SessionInputs::<N>::ValueSlice(slice).names(session.inputs@);
    assert forall|i: int| 0 <= i < names.len() implies nul_free(#[trigger] names[i]) by {
        assert(names[i] == session.inputs@[i].name@);
        law_c_string_is_utf8_and_zero(names[i]);
    }
    assert(SessionInputs::<N>::ValueArray(array).names(session.inputs@) == names);
}

/// A run on named values can be made wherever no name that a value was given with holds
/// NUL, nor one of an output that is asked for.
pub proof fn law_named_values_can_be_sent<const N: usize>(
    session: Session,
    entries: Vec<(String, SessionInputValue)>,
    run_options: Option<&UntypedRunOptions>,
)
    requires
        forall|i: int, k: int|
            0 <= i < entries@.len() && 0 <= k < entries@[i].0@.len() ==> #[trigger] entries@[i].0@[k]
                != '\0',
        all_nul_free(selected_names(session.selection(run_options))),
    ensures
        session.can_name(SessionInputs::<N>::ValueMap(entries), run_options),
{
    let names = SessionInputs::<N>::ValueMap(entries).names(session.inputs@);
    assert forall|i: int| 0 <= i < names.len() implies nul_free(#[trigger] names[i]) by {
        assert(names[i] == entries@[i].0@);
        law_c_string_is_utf8_and_zero(names[i]);
    }
}

/// The names of the outputs that a run asks for can be sent wherever none of them holds NUL:
/// none of the listed ones, or, without a list, none of the model's.
pub proof fn law_outputs_can_be_asked_for(
    session: Session,
    run_options: Option<&UntypedRunOptions>,
)
    requires
        (run_options matches Some(options) ==> options.outputs == OutputSelector::All)
            ==> forall|i: int, k: int|
            0 <= i < session.outputs@.len() && 0 <= k < session.outputs@[i].name@.len()
                ==> #[trigger] session.outputs@[i].name@[k] != '\0',
        run_options matches Some(options) ==> (options.outputs matches OutputSelector::Only(listed)
            ==> forall|i: int, k: int|
            0 <= i < listed@.len() && 0 <= k < listed@[i].name@.len()
                ==> #[trigger] listed@[i].name@[k] != '\0'),
    ensures
        all_nul_free(selected_names(session.selection(run_options))),
{
    let names = selected_names(session.selection(run_options));
    assert forall|i: int| 0 <= i < names.len() implies nul_free(#[trigger] names[i]) by {
        match run_options {
            Some(options) => match options.outputs {
                OutputSelector::All => {
                    assert(names[i] == session.outputs@[i].name@);
                },
                OutputSelector::Only(listed) => {
                    assert(names[i] == listed@[i].name@);
                },
            },
            None => {
                assert(names[i] == session.outputs@[i].name@);
            },
        }
        law_c_string_is_utf8_and_zero(names[i]);
    }
}

/// An answer of the runtime is complete where it has an address for each output that was
/// asked for, and one that is not null for each that was left to the runtime.
pub proof fn law_complete_answers(selected: Seq<SelectedOutput>, written: Seq<usize>)
    ensures
        fills(selected_views(selected), written) <==> {
            &&& written.len() == selected.len()
            &&& forall|i: int|
                0 <= i < selected.len() && (#[trigger] selected[i]).value is None ==> written[i]
                    != 0
        },
{
    let views = selected_views(selected);
    assert forall|i: int| 0 <= i < selected.len() implies views[i] == (#[trigger] selected[i])@ by {}
    assert(forall|i: int| 0 <= i < selected.len() ==> (#[trigger] views[i]) == selected[i]@);
    if fills(views, written) {
        assert forall|i: int|
            0 <= i < selected.len() && (#[trigger] selected[i]).value is None implies written[i]
            != 0 by {
            assert(views[i].value is None);
        }
    }
}

/// Nothing more is asked of an engine than to take the request for these values, and to
/// answer it with a failure or with a complete answer.
pub proof fn law_engine_owes_a_complete_answer<
    const N: usize,
    F: FnOnce(RunRequest) -> Result<Vec<usize>, Error>,
>(
    session: Session,
    input_values: SessionInputs<N>,
    run_options: Option<&UntypedRunOptions>,
    engine: F,
)
    requires
        session.refuses(input_values) || {
            &&& forall|request: RunRequest|
                request@ == session.request_of(input_values, run_options)
                    ==> #[trigger] engine.requires((request,))
            &&& forall|request: RunRequest, written: Vec<usize>|
                request@ == session.request_of(input_values, run_options)
                    && #[trigger] engine.ensures((request,), Ok::<Vec<usize>, Error>(written))
                    ==> fills(session.selection(run_options), written@)
        },
    ensures
        session.served(input_values, run_options, engine),
{
}

/// The outputs of a bound run are under the names in the binding's own list, entry by entry,
/// and each value is the object at the address that was fetched for it, which keeps the
/// session alive.
pub proof fn law_bound_outputs_follow_the_binding(
    session: Session,
    binding: IoBinding,
    addresses: Seq<usize>,
    outputs: SessionOutputs,
)
    requires
        outputs@ == session.bound_outputs(binding, addresses),
    ensures
        outputs.names@.len() == binding.output_values@.len(),
        forall|i: int|
            0 <= i < binding.output_values@.len() ==> (#[trigger] outputs.names@[i])@
                == binding.output_values@[i].0@,
        outputs.values@.len() == addresses.len(),
        forall|i: int|
            0 <= i < addresses.len() ==> {
                &&& (#[trigger] outputs.values@[i]).inner.ptr@ == addresses[i]
                &&& outputs.values@[i].inner.session == Some(session.inner)
            },
{
    let given = outputs@;
    assert(given.names.len() == outputs.names@.len());
    assert(given.values.len() == outputs.values@.len());
    assert forall|i: int| 0 <= i < binding.output_values@.len() implies (
    #[trigger] outputs.names@[i])@ == binding.output_values@[i].0@ by {
        assert(given.names[i] == outputs.names@[i]@);
    }
    assert forall|i: int| 0 <= i < addresses.len() implies {
        &&& (#[trigger] outputs.values@[i]).inner.ptr@ == addresses[i]
        &&& outputs.values@[i].inner.session == Some(session.inner)
    } by {
        assert(given.values[i] == outputs.values@[i]@);
    }
}

/// The calls of a bound run name its own session, binding and allocator, the options that it
/// was given or none, as many outputs as are bound, and the very array to be freed.
pub proof fn law_bound_calls_are_for_the_session(
    session: Session,
    binding: IoBinding,
    run_options: Option<&RunOptions<NoSelectedOutputs>>,
    block: usize,
)
    ensures
        session.bound_run_request(binding, None) == (BoundRunRequest {
            session: session.inner.session_ptr@,
            run_options: 0,
            binding: binding.ptr@,
        }),
        run_options matches Some(options) ==> session.bound_run_request(binding, run_options) == (
        BoundRunRequest {
            session: session.inner.session_ptr@,
            run_options: options.inner.ptr@,
            binding: binding.ptr@,
        }),
        session.fetch_request(binding) == (FetchRequest {
            binding: binding.ptr@,
            allocator: session.inner.allocator.ptr@,
            count: binding.output_values@.len() as usize,
        }),
        session.free_request(block) == (FreeRequest {
            allocator: session.inner.allocator.ptr@,
            block,
        }),
{
}

/// After a bound run, its failure is final; its success is final, and empty, where nothing
/// is bound; and otherwise the outputs of this binding are fetched.
pub proof fn law_after_a_bound_run(
    session: Session,
    binding: IoBinding,
    status: Result<(), Error>,
    next: AfterBoundRun,
)
    requires
        session.follows_bound_run(binding, status, next),
    ensures
        status matches Err(error) ==> next == AfterBoundRun::Done(Err(error)),
        status is Ok && binding.output_values@.len() == 0 ==> {
            &&& next is Done
            &&& next->Done_0 is Ok
            &&& next->Done_0->Ok_0.names@.len() == 0
            &&& next->Done_0->Ok_0.values@.len() == 0
        },
        status is Ok && binding.output_values@.len() > 0 ==> next == AfterBoundRun::Fetch(
            FetchRequest {
                binding: binding.ptr@,
                allocator: session.inner.allocator.ptr@,
                count: binding.output_values@.len() as usize,
            },
        ),
{
    if let AfterBoundRun::Done(Ok(outputs)) = next {
        assert(outputs@.names.len() == outputs.names@.len());
        assert(outputs@.values.len() == outputs.values@.len());
    }
}

/// A bound run asks the runtime to run this binding. A failure is final. Where nothing is
/// bound, success gives nothing. Otherwise the bound outputs are fetched: a failure to do so
/// is final, and success gives each of them under the name in its entry of the binding, and
/// frees the array that they came in.
pub proof fn law_bound_run_step_by_step<
    Run: FnOnce(BoundRunRequest) -> Result<(), Error>,
    Fetch: FnOnce(FetchRequest) -> Result<FetchedOutputs, Error>,
    Free: FnOnce(FreeRequest),
>(
    session: Session,
    binding: IoBinding,
    run: Run,
    fetch: Fetch,
    free: Free,
    result: Result<SessionOutputs, Error>,
)
    requires
        session.bound_ran(binding, None, run, fetch, free, result),
    ensures
        exists|status: Result<(), Error>|
            {
                &&& #[trigger] run.ensures(
                    (
                        BoundRunRequest {
                            session: session.inner.session_ptr@,
                            run_options: 0,
                            binding: binding.ptr@,
                        },
                    ),
                    status,
                )
                &&& status matches Err(error) ==> result == Err::<SessionOutputs, Error>(error)
                &&& status is Ok && binding.output_values@.len() == 0 ==> {
                    &&& result is Ok
                    &&& result->Ok_0.names@.len() == 0
                    &&& result->Ok_0.values@.len() == 0
                }
                &&& status is Ok && binding.output_values@.len() > 0 ==> exists|
                    reply: Result<FetchedOutputs, Error>,
                |
                    {
                        &&& #[trigger] fetch.ensures(
                            (
                                FetchRequest {
                                    binding: binding.ptr@,
                                    allocator: session.inner.allocator.ptr@,
                                    count: binding.output_values@.len() as usize,
                                },
                            ),
                            reply,
                        )
                        &&& reply matches Err(error) ==> result == Err::<SessionOutputs, Error>(
                            error,
                        )
                        &&& reply matches Ok(fetched) ==> {
                            &&& result is Ok
                            &&& result->Ok_0.names@.len() == binding.output_values@.len()
                            &&& forall|i: int|
                                0 <= i < binding.output_values@.len() ==> (
                                #[trigger] result->Ok_0.names@[i])@ == binding.output_values@[i].0@
                            &&& result->Ok_0.values@.len() == fetched.values@.len()
                            &&& forall|i: int|
                                0 <= i < fetched.values@.len() ==> {
                                    &&& (#[trigger] result->Ok_0.values@[i]).inner.ptr@
                                        == fetched.values@[i]
                                    &&& result->Ok_0.values@[i].inner.session == Some(
                                        session.inner,
                                    )
                                }
                            &&& free.ensures(
                                (
                                    FreeRequest {
                                        allocator: session.inner.allocator.ptr@,
                                        block: fetched.array@,
                                    },
                                ),
                                (),
                            )
                        }
                    }
            },
{
    let started = session.bound_run_request(binding, None);
    let (status, next) = choose|status: Result<(), Error>, next: AfterBoundRun|
        {
            &&& #[trigger] run.ensures((started,), status)
            &&& #[trigger] session.follows_bound_run(binding, status, next)
            &&& match next {
                AfterBoundRun::Done(done) => result == done,
                AfterBoundRun::Fetch(request) => exists|reply: Result<FetchedOutputs, Error>|
                    {
                        &&& #[trigger] fetch.ensures((request,), reply)
                        &&& match reply {
                            Ok(fetched) => {
                                &&& result matches Ok(outputs) && outputs@
                                    == session.bound_outputs(binding, fetched.values@)
                                &&& free.ensures((session.free_request(fetched.array@),), ())
                            },
                            Err(error) => result == Err::<SessionOutputs, Error>(error),
                        }
                    },
            }
        };
    law_after_a_bound_run(session, binding, status, next);
    if let AfterBoundRun::Fetch(request) = next {
        let reply = choose|reply: Result<FetchedOutputs, Error>|
            {
                &&& #[trigger] fetch.ensures((request,), reply)
                &&& match reply {
                    Ok(fetched) => {
                        &&& result matches Ok(outputs) && outputs@ == session.bound_outputs(
                            binding,
                            fetched.values@,
                        )
                        &&& free.ensures((session.free_request(fetched.array@),), ())
                    },
                    Err(error) => result == Err::<SessionOutputs, Error>(error),
                }
            };
        if let (Ok(fetched), Ok(outputs)) = (reply, result) {
            law_bound_outputs_follow_the_binding(session, binding, fetched.values@, outputs);
        }
        assert(fetch.ensures((request,), reply));
    }
    assert(run.ensures((started,), status));
}

/// Nothing more is asked of the three calls of a bound run than to take the requests that it
/// makes, and of a fetch that succeeds than to leave no address null.
pub proof fn law_bound_calls_owe_no_more<
    Run: FnOnce(BoundRunRequest) -> Result<(), Error>,
    Fetch: FnOnce(FetchRequest) -> Result<FetchedOutputs, Error>,
    Free: FnOnce(FreeRequest),
>(
    session: Session,
    binding: IoBinding,
    run_options: Option<&RunOptions<NoSelectedOutputs>>,
    run: Run,
    fetch: Fetch,
    free: Free,
)
    requires
        run.requires((session.bound_run_request(binding, run_options),)),
        binding.output_values@.len() > 0 ==> fetch.requires((session.fetch_request(binding),)),
        forall|fetched: FetchedOutputs| #[trigger]
            fetch.ensures(
                (session.fetch_request(binding),),
                Ok::<FetchedOutputs, Error>(fetched),
            ) ==> {
                &&& forall|i: int|
                    0 <= i < fetched.values@.len() ==> #[trigger] fetched.values@[i] != 0
                &&& free.requires((session.free_request(fetched.array@),))
            },
    ensures
        session.bound_served(binding, run_options, run, fetch, free),
{
    assert forall|reply: Result<FetchedOutputs, Error>| #[trigger]
        fetch.ensures((session.fetch_request(binding),), reply) && reply is Ok implies none_null(
        reply->Ok_0.values@,
    ) && free.requires((session.free_request(reply->Ok_0.array@),)) by {
        assert(reply == Ok::<FetchedOutputs, Error>(reply->Ok_0));
    }
}

} // verus!
