//! What the callers of a session's functions get.

use crate::error::{Error, ErrorCode};
use crate::io_binding::IoBinding;
use crate::pointer::{AsPointer, Pointer};
use crate::session::behaviour::{
    law_after_a_bound_run, law_bound_calls_are_for_the_session,
    law_bound_outputs_follow_the_binding, law_bound_run_step_by_step,
    law_finished_run_reads_each_place, law_pending_run_waits_for_what_was_asked,
    law_run_gives_the_listed_outputs, law_run_gives_what_the_runtime_left,
};
use crate::session::bound::{
    AfterBoundRun, BoundRunRequest, FetchRequest, FetchedOutputs, FreeRequest,
};
use crate::session::builder::SessionBuilder;
use crate::session::input::{Input, SessionInputs};
use crate::session::output::{Output, SessionOutputs};
use crate::session::request::{PendingRun, RunRequest};
use crate::session::run_options::{
    NoSelectedOutputs, OutputSelector, RunOptions, SelectedOutput, SelectedOutputMarker,
    UntypedRunOptions,
};
use crate::session::{Session, SharedSessionInner};
use crate::text::decimal;
use std::sync::Arc;
use vstd::prelude::*;

verus! {

/// A caller of `run` who hands in no more values than the model has inputs, or values with
/// names, gets the runtime's own error, or one output for each of the model's, in order and
/// by name: the object that the runtime left in that output's own place, which keeps the
/// session alive. The session stays as it was.
pub proof fn law_run<
    const N: usize,
    F: FnOnce(RunRequest) -> Result<Vec<usize>, Error>,
>(
    session: &mut Session,
    input_values: SessionInputs<N>,
    engine: F,
    result: Result<SessionOutputs, Error>,
)
    requires
        call_ensures(Session::run::<N, F>, (session, input_values, engine), result),
        match input_values {
            SessionInputs::ValueSlice(slice) => slice@.len() <= old(session).inputs@.len(),
            SessionInputs::ValueArray(array) => array@.len() <= old(session).inputs@.len(),
            SessionInputs::ValueMap(entries) => true,
        },
    ensures
        *final(session) == *old(session),
        exists|request: RunRequest, reply: Result<Vec<usize>, Error>|
            {
                &&& request@ == old(session).request_of(input_values, None)
                &&& #[trigger] engine.ensures((request,), reply)
                &&& reply matches Err(error) ==> result == Err::<SessionOutputs, Error>(error)
                &&& reply matches Ok(written) ==> {
                    &&& result is Ok
                    &&& result->Ok_0.names@.len() == old(session).outputs@.len()
                    &&& result->Ok_0.values@.len() == old(session).outputs@.len()
                    &&& forall|i: int|
                        0 <= i < old(session).outputs@.len() ==> (
                        #[trigger] result->Ok_0.names@[i])@ == old(session).outputs@[i].name@
                    &&& forall|i: int|
                        0 <= i < old(session).outputs@.len() ==> {
                            &&& (#[trigger] result->Ok_0.values@[i]).inner.ptr@ == written@[i]
                            &&& result->Ok_0.values@[i].inner.session == Some(old(session).inner)
                        }
                }
            },
{
    assert(!old(session).refuses(input_values));
    law_run_gives_what_the_runtime_left(*old(session), input_values, None, engine, result);
}

/// A caller of `run` who hands in more values than the model has inputs, and no names, is
/// told so, with both counts. The session stays as it was.
pub proof fn law_run_refuses<
    const N: usize,
    F: FnOnce(RunRequest) -> Result<Vec<usize>, Error>,
>(
    session: &mut Session,
    input_values: SessionInputs<N>,
    engine: F,
    result: Result<SessionOutputs, Error>,
)
    requires
        call_ensures(Session::run::<N, F>, (session, input_values, engine), result),
    ensures
        *final(session) == *old(session),
        input_values matches SessionInputs::ValueSlice(slice) ==> (slice@.len()
            > old(session).inputs@.len() ==> {
            &&& result is Err
            &&& result->Err_0.code == ErrorCode::InvalidArgument
            &&& result->Err_0.msg@ == decimal(slice@.len())
                + " inputs were provided, but the model only accepts "@ + decimal(
                old(session).inputs@.len(),
            ) + "."@
        }),
        input_values matches SessionInputs::ValueArray(array) ==> (array@.len()
            > old(session).inputs@.len() ==> {
            &&& result is Err
            &&& result->Err_0.code == ErrorCode::InvalidArgument
            &&& result->Err_0.msg@ == decimal(array@.len())
                + " inputs were provided, but the model only accepts "@ + decimal(
                old(session).inputs@.len(),
            ) + "."@
        }),
{
    assert(old(session).ran(input_values, None, engine, result));
}

/// With options that list no outputs, a caller gets what a caller of `run` gets.
pub proof fn law_run_with_options<
    'i,
    'v,
    O: SelectedOutputMarker,
    const N: usize,
    F: FnOnce(RunRequest) -> Result<Vec<usize>, Error>,
>(
    session: &mut Session,
    input_values: SessionInputs<'i, 'v, N>,
    run_options: &RunOptions<O>,
    engine: F,
    result: Result<SessionOutputs, Error>,
)
    requires
        call_ensures(
            Session::run_with_options::<O, N, F>,
            (session, input_values, run_options, engine),
            result,
        ),
        run_options.inner.outputs == OutputSelector::All,
        match input_values {
            SessionInputs::ValueSlice(slice) => slice@.len() <= old(session).inputs@.len(),
            SessionInputs::ValueArray(array) => array@.len() <= old(session).inputs@.len(),
            SessionInputs::ValueMap(entries) => true,
        },
    ensures
        *final(session) == *old(session),
        exists|request: RunRequest, reply: Result<Vec<usize>, Error>|
            {
                &&& request@ == old(session).request_of(input_values, Some(&run_options.inner))
                &&& #[trigger] engine.ensures((request,), reply)
                &&& reply matches Err(error) ==> result == Err::<SessionOutputs, Error>(error)
                &&& reply matches Ok(written) ==> {
                    &&& result is Ok
                    &&& result->Ok_0.names@.len() == old(session).outputs@.len()
                    &&& result->Ok_0.values@.len() == old(session).outputs@.len()
                    &&& forall|i: int|
                        0 <= i < old(session).outputs@.len() ==> (
                        #[trigger] result->Ok_0.names@[i])@ == old(session).outputs@[i].name@
                    &&& forall|i: int|
                        0 <= i < old(session).outputs@.len() ==> {
                            &&& (#[trigger] result->Ok_0.values@[i]).inner.ptr@ == written@[i]
                            &&& result->Ok_0.values@[i].inner.session == Some(old(session).inner)
                        }
                }
            },
{
    assert(!old(session).refuses(input_values));
    law_run_gives_what_the_runtime_left(
        *old(session),
        input_values,
        Some(&run_options.inner),
        engine,
        result,
    );
}

/// With options that list outputs, a caller gets the runtime's own error, or exactly the
/// listed outputs, in order and by name: the listed value, where there is one, and otherwise
/// the object that the runtime left in that output's own place.
pub proof fn law_run_with_listed_outputs<
    'i,
    'v,
    O: SelectedOutputMarker,
    const N: usize,
    F: FnOnce(RunRequest) -> Result<Vec<usize>, Error>,
>(
    session: &mut Session,
    input_values: SessionInputs<'i, 'v, N>,
    run_options: &RunOptions<O>,
    listed: Vec<SelectedOutput>,
    engine: F,
    result: Result<SessionOutputs, Error>,
)
    requires
        call_ensures(
            Session::run_with_options::<O, N, F>,
            (session, input_values, run_options, engine),
            result,
        ),
        run_options.inner.outputs == OutputSelector::Only(listed),
        match input_values {
            SessionInputs::ValueSlice(slice) => slice@.len() <= old(session).inputs@.len(),
            SessionInputs::ValueArray(array) => array@.len() <= old(session).inputs@.len(),
            SessionInputs::ValueMap(entries) => true,
        },
    ensures
        *final(session) == *old(session),
        exists|request: RunRequest, reply: Result<Vec<usize>, Error>|
            {
                &&& request@ == old(session).request_of(input_values, Some(&run_options.inner))
                &&& #[trigger] engine.ensures((request,), reply)
                &&& reply matches Err(error) ==> result == Err::<SessionOutputs, Error>(error)
                &&& reply matches Ok(written) ==> {
                    &&& result is Ok
                    &&& result->Ok_0.names@.len() == listed@.len()
                    &&& result->Ok_0.values@.len() == listed@.len()
                    &&& forall|i: int|
                        0 <= i < listed@.len() ==> (#[trigger] result->Ok_0.names@[i])@
                            == listed@[i].name@
                    &&& forall|i: int|
                        0 <= i < listed@.len() && listed@[i].value is None ==> {
                            &&& (#[trigger] result->Ok_0.values@[i]).inner.ptr@ == written@[i]
                            &&& result->Ok_0.values@[i].inner.session == Some(
                                old(session).inner,
                            )
                        }
                    &&& forall|i: int|
                        0 <= i < listed@.len() && listed@[i].value is Some ==> {
                            &&& (#[trigger] result->Ok_0.values@[i]).inner.ptr@
                                == listed@[i].value->0.inner.ptr@
                            &&& result->Ok_0.values@[i].inner.session
                                == listed@[i].value->0.inner.session
                        }
                }
            },
{
    assert(!old(session).refuses(input_values));
    law_run_gives_the_listed_outputs(
        *old(session),
        input_values,
        &run_options.inner,
        listed,
        engine,
        result,
    );
}

/// Options lift no limit: more values than the model has inputs, and no names, are answered
/// as in `run`.
pub proof fn law_run_with_options_refuses<
    'i,
    'v,
    O: SelectedOutputMarker,
    const N: usize,
    F: FnOnce(RunRequest) -> Result<Vec<usize>, Error>,
>(
    session: &mut Session,
    input_values: SessionInputs<'i, 'v, N>,
    run_options: &RunOptions<O>,
    engine: F,
    result: Result<SessionOutputs, Error>,
)
    requires
        call_ensures(
            Session::run_with_options::<O, N, F>,
            (session, input_values, run_options, engine),
            result,
        ),
    ensures
        *final(session) == *old(session),
        input_values matches SessionInputs::ValueSlice(slice) ==> (slice@.len()
            > old(session).inputs@.len() ==> {
            &&& result is Err
            &&& result->Err_0.code == ErrorCode::InvalidArgument
            &&& result->Err_0.msg@ == decimal(slice@.len())
                + " inputs were provided, but the model only accepts "@ + decimal(
                old(session).inputs@.len(),
            ) + "."@
        }),
        input_values matches SessionInputs::ValueArray(array) ==> (array@.len()
            > old(session).inputs@.len() ==> {
            &&& result is Err
            &&& result->Err_0.code == ErrorCode::InvalidArgument
            &&& result->Err_0.msg@ == decimal(array@.len())
                + " inputs were provided, but the model only accepts "@ + decimal(
                old(session).inputs@.len(),
            ) + "."@
        }),
{
    assert(old(session).ran(input_values, Some(&run_options.inner), engine, result));
}

/// Nothing is asked of a caller of a run but names that can be sent and an engine that takes
/// the request and leaves no output out.
pub proof fn law_run_can_be_called<
    'i,
    'v,
    O: SelectedOutputMarker,
    const N: usize,
    F: FnOnce(RunRequest) -> Result<Vec<usize>, Error>,
>(
    session: &mut Session,
    input_values: SessionInputs<'i, 'v, N>,
    run_options: &RunOptions<O>,
    engine: F,
)
    ensures
        old(session).can_name(input_values, None) && old(session).served(
            input_values,
            None,
            engine,
        ) ==> call_requires(Session::run::<N, F>, (session, input_values, engine)),
        old(session).can_name(input_values, Some(&run_options.inner)) && old(session).served(
            input_values,
            Some(&run_options.inner),
            engine,
        ) ==> call_requires(
            Session::run_with_options::<O, N, F>,
            (session, input_values, run_options, engine),
        ),
{
}

/// A caller of `prepare` gets the request for these values, and a run that waits for the
/// outputs that were asked for and belongs to the session; or is told that there are too
/// many values.
pub proof fn law_prepare<const N: usize>(
    session: &Session,
    input_values: &SessionInputs<N>,
    run_options: Option<&UntypedRunOptions>,
    result: Result<(RunRequest, PendingRun), Error>,
)
    requires
        call_ensures(Session::prepare::<N>, (session, input_values, run_options), result),
    ensures
        session.can_name(*input_values, run_options) ==> call_requires(
            Session::prepare::<N>,
            (session, input_values, run_options),
        ),
        result is Ok <==> match *input_values {
            SessionInputs::ValueSlice(slice) => slice@.len() <= session.inputs@.len(),
            SessionInputs::ValueArray(array) => array@.len() <= session.inputs@.len(),
            SessionInputs::ValueMap(entries) => true,
        },
        result matches Ok((request, pending)) ==> {
            &&& request@ == session.request_of(*input_values, run_options)
            &&& pending.session == session.inner
            &&& (run_options matches Some(options) ==> options.outputs == OutputSelector::All)
                ==> {
                &&& pending.selected@.len() == session.outputs@.len()
                &&& forall|i: int|
                    0 <= i < session.outputs@.len() ==> {
                        &&& (#[trigger] pending.selected@[i]).name@ == session.outputs@[i].name@
                        &&& pending.selected@[i].value is None
                    }
            }
            &&& run_options matches Some(options) ==> (
            options.outputs matches OutputSelector::Only(listed) ==> {
                &&& pending.selected@.len() == listed@.len()
                &&& forall|i: int|
                    0 <= i < listed@.len() ==> {
                        &&& (#[trigger] pending.selected@[i]).name@ == listed@[i].name@
                        &&& pending.selected@[i].value is Some <==> listed@[i].value is Some
                        &&& listed@[i].value matches Some(value) ==> {
                            &&& pending.selected@[i].value->0.inner.ptr@ == value.inner.ptr@
                            &&& pending.selected@[i].value->0.inner.session
                                == value.inner.session
                        }
                    }
            })
        },
        result matches Err(error) ==> {
            &&& error.code == ErrorCode::InvalidArgument
            &&& error.msg@ == decimal(
                match *input_values {
                    SessionInputs::ValueSlice(slice) => slice@.len(),
                    SessionInputs::ValueArray(array) => array@.len(),
                    SessionInputs::ValueMap(entries) => entries@.len(),
                },
            ) + " inputs were provided, but the model only accepts "@ + decimal(
                session.inputs@.len(),
            ) + "."@
        },
{
    if let Ok((request, pending)) = result {
        law_pending_run_waits_for_what_was_asked(*session, run_options, pending);
    }
}

/// A caller of `finish` gets the runtime's own error, or each output under the name that it
/// was asked for by: with the value that it was to be written into, where there was one, and
/// otherwise with the object in the output's own place, which keeps the session alive.
pub proof fn law_finish(
    pending: PendingRun,
    reply: Result<Vec<usize>, Error>,
    result: Result<SessionOutputs, Error>,
)
    requires
        call_ensures(PendingRun::finish, (pending, reply), result),
    ensures
        reply matches Err(error) ==> result == Err::<SessionOutputs, Error>(error),
        reply matches Ok(written) ==> {
            &&& result is Ok
            &&& result->Ok_0.names@.len() == pending.selected@.len()
            &&& result->Ok_0.values@.len() == pending.selected@.len()
            &&& forall|i: int|
                0 <= i < pending.selected@.len() ==> (#[trigger] result->Ok_0.names@[i])@
                    == pending.selected@[i].name@
            &&& forall|i: int|
                0 <= i < pending.selected@.len() && pending.selected@[i].value is None ==> {
                    &&& (#[trigger] result->Ok_0.values@[i]).inner.ptr@ == written@[i]
                    &&& result->Ok_0.values@[i].inner.session == Some(pending.session)
                }
            &&& forall|i: int|
                0 <= i < pending.selected@.len() && pending.selected@[i].value is Some ==> {
                    &&& (#[trigger] result->Ok_0.values@[i]).inner.ptr@
                        == pending.selected@[i].value->0.inner.ptr@
                    &&& result->Ok_0.values@[i].inner.session
                        == pending.selected@[i].value->0.inner.session
                }
        },
{
    law_finished_run_reads_each_place(pending.selected@, pending.session, reply, result);
}

/// Every answer can finish a run that is a failure, or has an address for each output, and
/// one that is not null for each that was left to the runtime.
pub proof fn law_finish_takes_complete_answers(
    pending: PendingRun,
    reply: Result<Vec<usize>, Error>,
)
    requires
        reply matches Ok(written) ==> {
            &&& written@.len() == pending.selected@.len()
            &&& forall|i: int|
                0 <= i < pending.selected@.len() && (#[trigger] pending.selected@[i]).value is None
                    ==> written@[i] != 0
        },
    ensures
        call_requires(PendingRun::finish, (pending, reply)),
{
    if let Ok(written) = reply {
        crate::session::behaviour::law_complete_answers(pending.selected@, written@);
    }
}

/// What a session says of itself is what it is made of.
pub proof fn law_session_shows_its_parts(
    session: &Session,
    inputs: &[Input],
    outputs: &[Output],
    inner: Arc<SharedSessionInner>,
    addr: usize,
)
    requires
        call_ensures(Session::inputs, (session,), inputs),
        call_ensures(Session::outputs, (session,), outputs),
        call_ensures(Session::inner, (session,), inner),
        call_ensures(<Session as AsPointer>::ptr, (session,), addr),
    ensures
        inputs@ == session.inputs@,
        outputs@ == session.outputs@,
        inner == session.inner,
        addr == session.inner.session_ptr@,
{
}

/// A caller of `builder` gets a builder around the options object that was created, or the
/// failure to create one.
pub proof fn law_builder<F: FnOnce() -> Result<Pointer, Error>>(
    create: F,
    result: Result<SessionBuilder, Error>,
)
    requires
        call_ensures(Session::builder::<F>, (create,), result),
    ensures
        create.requires(()) ==> call_requires(Session::builder::<F>, (create,)),
        exists|created: Result<Pointer, Error>|
            {
                &&& #[trigger] create.ensures((), created)
                &&& result is Ok <==> created is Ok
                &&& created matches Ok(pointer) ==> result->Ok_0.options == pointer
                &&& created matches Err(error) ==> result == Err::<SessionBuilder, Error>(error)
            },
{
}

/// A caller who takes a bound run step by step gets the call for this session, binding and
/// options; then the failure, nothing, or the call that fetches the outputs of this binding;
/// and then the outputs under the names in the binding's own list, entry by entry, each the
/// object at the address that was fetched for it.
pub proof fn law_bound_steps(
    session: &Session,
    binding: &IoBinding,
    run_options: Option<&RunOptions<NoSelectedOutputs>>,
    request: BoundRunRequest,
    status: Result<(), Error>,
    next: AfterBoundRun,
    addresses: &Vec<usize>,
    outputs: SessionOutputs,
)
    requires
        call_ensures(Session::start_bound_run, (session, binding, run_options), request),
        call_ensures(Session::after_bound_run, (session, binding, status), next),
        call_ensures(Session::collect_bound_outputs, (session, binding, addresses), outputs),
    ensures
        request.session == session.inner.session_ptr@,
        request.binding == binding.ptr@,
        run_options is None ==> request.run_options == 0,
        run_options matches Some(options) ==> request.run_options == options.inner.ptr@,
        status matches Err(error) ==> next == AfterBoundRun::Done(Err(error)),
        status is Ok && binding.output_values@.len() == 0 ==> {
            &&& next is Done
            &&& next->Done_0 is Ok
            &&& next->Done_0->Ok_0.names@.len() == 0
            &&& next->Done_0->Ok_0.values@.len() == 0
        },
        status is Ok && binding.output_values@.len() > 0 ==> next == AfterBoundRun::Fetch(
            FetchRequest {
                binding: binding.ptr@,
                allocator: session.inner.allocator.ptr@,
                count: binding.output_values@.len() as usize,
            },
        ),
        (forall|i: int| 0 <= i < addresses@.len() ==> #[trigger] addresses@[i] != 0)
            ==> call_requires(Session::collect_bound_outputs, (session, binding, addresses)),
        outputs.names@.len() == binding.output_values@.len(),
        forall|i: int|
            0 <= i < binding.output_values@.len() ==> (#[trigger] outputs.names@[i])@
                == binding.output_values@[i].0@,
        outputs.values@.len() == addresses@.len(),
        forall|i: int|
            0 <= i < addresses@.len() ==> {
                &&& (#[trigger] outputs.values@[i]).inner.ptr@ == addresses@[i]
                &&& outputs.values@[i].inner.session == Some(session.inner)
            },
{
    law_bound_calls_are_for_the_session(*session, *binding, run_options, 0);
    law_after_a_bound_run(*session, *binding, status, next);
    law_bound_outputs_follow_the_binding(*session, *binding, addresses@, outputs);
}

/// A caller of `run_binding` gets the failure of the run, or nothing where nothing is bound,
/// or the failure to fetch, or each bound output under the name in its entry of the binding:
/// the object at the address that was fetched for it. The array that they came in is freed,
/// and the session stays as it was.
pub proof fn law_run_binding<
    Run: FnOnce(BoundRunRequest) -> Result<(), Error>,
    Fetch: FnOnce(FetchRequest) -> Result<FetchedOutputs, Error>,
    Free: FnOnce(FreeRequest),
>(
    session: &mut Session,
    binding: &IoBinding,
    run: Run,
    fetch: Fetch,
    free: Free,
    result: Result<SessionOutputs, Error>,
)
    requires
        call_ensures(
            Session::run_binding::<Run, Fetch, Free>,
            (session, binding, run, fetch, free),
            result,
        ),
    ensures
        *final(session) == *old(session),
        exists|status: Result<(), Error>|
            {
                &&& #[trigger] run.ensures(
                    (
                        BoundRunRequest {
                            session: old(session).inner.session_ptr@,
                            run_options: 0,
                            binding: binding.ptr@,
                        },
                    ),
                    status,
                )
                &&& status matches Err(error) ==> result == Err::<SessionOutputs, Error>(error)
                &&& status is Ok && binding.output_values@.len() == 0 ==> {
                    &&& result is Ok
                    &&& result->Ok_0.names@.len() == 0
                    &&& result->Ok_0.values@.len() == 0
                }
                &&& status is Ok && binding.output_values@.len() > 0 ==> exists|
                    reply: Result<FetchedOutputs, Error>,
                |
                    {
                        &&& #[trigger] fetch.ensures(
                            (
                                FetchRequest {
                                    binding: binding.ptr@,
                                    allocator: old(session).inner.allocator.ptr@,
                                    count: binding.output_values@.len() as usize,
                                },
                            ),
                            reply,
                        )
                        &&& reply matches Err(error) ==> result == Err::<SessionOutputs, Error>(
                            error,
                        )
                        &&& reply matches Ok(fetched) ==> {
                            &&& result is Ok
                            &&& result->Ok_0.names@.len() == binding.output_values@.len()
                            &&& forall|i: int|
                                0 <= i < binding.output_values@.len() ==> (
                                #[trigger] result->Ok_0.names@[i])@ == binding.output_values@[i].0@
                            &&& result->Ok_0.values@.len() == fetched.values@.len()
                            &&& forall|i: int|
                                0 <= i < fetched.values@.len() ==> {
                                    &&& (#[trigger] result->Ok_0.values@[i]).inner.ptr@
                                        == fetched.values@[i]
                                    &&& result->Ok_0.values@[i].inner.session == Some(
                                        old(session).inner,
                                    )
                                }
                            &&& free.ensures(
                                (
                                    FreeRequest {
                                        allocator: old(session).inner.allocator.ptr@,
                                        block: fetched.array@,
                                    },
                                ),
                                (),
                            )
                        }
                    }
            },
{
    law_bound_run_step_by_step(*old(session), *binding, run, fetch, free, result);
}

/// Nothing is asked of a caller of `run_binding` but calls that take its requests and a fetch
/// that leaves no address null.
pub proof fn law_run_binding_can_be_called<
    Run: FnOnce(BoundRunRequest) -> Result<(), Error>,
    Fetch: FnOnce(FetchRequest) -> Result<FetchedOutputs, Error>,
    Free: FnOnce(FreeRequest),
>(
    session: &mut Session,
    binding: &IoBinding,
    run: Run,
    fetch: Fetch,
    free: Free,
)
    requires
        old(session).bound_served(*binding, None, run, fetch, free),
    ensures
        call_requires(
            Session::run_binding::<Run, Fetch, Free>,
            (session, binding, run, fetch, free),
        ),
{
}

} // verus!
