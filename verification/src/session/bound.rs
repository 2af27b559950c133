//! Runs with a binding, which take three calls into the runtime: run, fetch the bound
//! outputs, and free the array that they came in.

use crate::error::Error;
use crate::io_binding::IoBinding;
use crate::pointer::{AsPointer, Pointer};
use crate::session::output::{SessionOutputs, SessionOutputsView};
use crate::session::run_options::{NoSelectedOutputs, RunOptions};
use crate::session::{Session, SharedSessionInner};
use crate::shared::share;
use crate::value::{Value, ValueView};
use std::sync::Arc;
use vstd::prelude::*;

verus! {

/// The arguments of the runtime's `RunWithBinding`. Zero is the null address.
#[derive(Clone, Copy, Debug, PartialEq, Eq, Structural)]
pub struct BoundRunRequest {
    pub session: usize,
    pub run_options: usize,
    pub binding: usize,
}

/// The arguments of the runtime's `GetBoundOutputValues`.
#[derive(Clone, Copy, Debug, PartialEq, Eq, Structural)]
pub struct FetchRequest {
    pub binding: usize,
    pub allocator: usize,
    pub count: usize,
}

/// What `GetBoundOutputValues` gives: the addresses of the outputs, and that of the array
/// that it left them in.
#[derive(Debug)]
pub struct FetchedOutputs {
    pub array: Pointer,
    pub values: Vec<usize>,
}

/// The arguments of a call that gives memory back to an allocator.
#[derive(Clone, Copy, Debug, PartialEq, Eq, Structural)]
pub struct FreeRequest {
    pub allocator: usize,
    pub block: usize,
}

/// What to do once a bound run is over.
#[derive(Debug)]
pub enum AfterBoundRun {
    /// Nothing is left to be done.
    Done(Result<SessionOutputs, Error>),
    /// Fetch the outputs.
    Fetch(FetchRequest),
}

/// Whether none of `addresses` is null.
pub open spec fn none_null(addresses: Seq<usize>) -> bool {
    forall|i: int| 0 <= i < addresses.len() ==> #[trigger] addresses[i] != 0
}

/// Bound outputs at `addresses` that came out of `session`, which they keep alive.
pub open spec fn bound_values(addresses: Seq<usize>, session: Arc<SharedSessionInner>) -> Seq<
    ValueView,
> {
    addresses.map_values(|address: usize| ValueView { address, session: Some(session) })
}

impl Session {
    /// The call that starts a bound run.
    pub open spec fn bound_run_request(
        &self,
        binding: IoBinding,
        run_options: Option<&RunOptions<NoSelectedOutputs>>,
    ) -> BoundRunRequest {
        BoundRunRequest {
            session: self.inner.session_ptr@,
            run_options: match run_options {
                Some(options) => options.address(),
                None => 0,
            },
            binding: binding.ptr@,
        }
    }

    /// The call that fetches the bound outputs.
    pub open spec fn fetch_request(&self, binding: IoBinding) -> FetchRequest {
        FetchRequest {
            binding: binding.ptr@,
            allocator: self.inner.allocator.ptr@,
            count: binding.output_values@.len() as usize,
        }
    }

    /// The call that frees the array at `block`.
    pub open spec fn free_request(&self, block: usize) -> FreeRequest {
        FreeRequest { allocator: self.inner.allocator.ptr@, block }
    }

    /// The outputs of a bound run that are at `addresses`.
    pub open spec fn bound_outputs(
        &self,
        binding: IoBinding,
        addresses: Seq<usize>,
    ) -> SessionOutputsView {
        SessionOutputsView {
            names: binding.output_names(),
            values: bound_values(addresses, self.inner),
        }
    }

    /// Whether `next` is what follows a bound run that ended with `status`.
    pub open spec fn follows_bound_run(
        &self,
        binding: IoBinding,
        status: Result<(), Error>,
        next: AfterBoundRun,
    ) -> bool {
        match status {
            Err(error) => next == AfterBoundRun::Done(Err(error)),
            Ok(()) => if binding.output_values@.len() == 0 {
                next matches AfterBoundRun::Done(result) && result matches Ok(outputs) && outputs@
                    == (SessionOutputsView { names: Seq::empty(), values: Seq::empty() })
            } else {
                next == AfterBoundRun::Fetch(self.fetch_request(binding))
            },
        }
    }

    /// The call that starts a bound run.
    pub fn start_bound_run(
        &self,
        binding: &IoBinding,
        run_options: Option<&RunOptions<NoSelectedOutputs>>,
    ) -> (request: BoundRunRequest)
        ensures
            request == self.bound_run_request(*binding, run_options),
    {
        let run_options_ptr: usize = match run_options {
            Some(options) => options.ptr(),
            None => 0,
        };
        BoundRunRequest {
            session: self.ptr(),
            run_options: run_options_ptr,
            binding: binding.ptr(),
        }
    }

    /// What follows a bound run that ended with `status`: its failure is final, and so
    /// is its success where no output is bound.
    pub fn after_bound_run(&self, binding: &IoBinding, status: Result<(), Error>) -> (next:
        AfterBoundRun)
        ensures
            self.follows_bound_run(*binding, status, next),
    {
        match status {
            Err(error) => AfterBoundRun::Done(Err(error)),
            Ok(()) => {
                let count = binding.output_values.len();
                if count > 0 {
                    AfterBoundRun::Fetch(
                        FetchRequest {
                            binding: binding.ptr(),
                            allocator: self.inner.allocator.ptr(),
                            count,
                        },
                    )
                } else {
                    AfterBoundRun::Done(Ok(SessionOutputs::new_empty()))
                }
            },
        }
    }

    /// The outputs of a bound run, from the addresses that were fetched.
    pub fn collect_bound_outputs(&self, binding: &IoBinding, addresses: &Vec<usize>) -> (outputs:
        SessionOutputs)
        requires
            none_null(addresses@),
        ensures
            outputs@ == self.bound_outputs(*binding, addresses@),
    {
        let mut values: Vec<Value> = Vec::new();
        let mut i: usize = 0;
        while i < addresses.len()
            invariant
                i <= addresses.len(),
                none_null(addresses@),
                values.len() == i,
                forall|j: int|
                    0 <= j < i ==> (#[trigger] values@[j])@ == bound_values(
                        addresses@,
                        self.inner,
                    )[j],
            decreases addresses.len() - i,
        {
            let ptr = Pointer::new(addresses[i]).unwrap();
            values.push(Value::from_ptr(ptr, Some(share(&self.inner))));
            i += 1;
        }
        let mut names: Vec<String> = Vec::new();
        let mut i: usize = 0;
        while i < binding.output_values.len()
            invariant
                i <= binding.output_values.len(),
                names.len() == i,
                forall|j: int| 0 <= j < i ==> (#[trigger] names@[j])@ == binding.output_names()[j],
            decreases binding.output_values.len() - i,
        {
            names.push(binding.output_values[i].0.clone());
            i += 1;
        }
        let outputs = SessionOutputs::new(names, values);
        assert(outputs@ =~= self.bound_outputs(*binding, addresses@));
        outputs
    }

    /// Whether the three functions can be called as a bound run calls them, and no
    /// output that `fetch` gives is null. Nothing is asked of a call that a bound run
    /// does not make: of a fetch after a failed run or where no output is bound, or of a
    /// free without a fetch.
    pub open spec fn bound_served<
        Run: FnOnce(BoundRunRequest) -> Result<(), Error>,
        Fetch: FnOnce(FetchRequest) -> Result<FetchedOutputs, Error>,
        Free: FnOnce(FreeRequest),
    >(
        &self,
        binding: IoBinding,
        run_options: Option<&RunOptions<NoSelectedOutputs>>,
        run: Run,
        fetch: Fetch,
        free: Free,
    ) -> bool {
        &&& run.requires((self.bound_run_request(binding, run_options),))
        &&& forall|status: Result<(), Error>| #[trigger]
            run.ensures((self.bound_run_request(binding, run_options),), status) && status is Ok
                && binding.output_values@.len() > 0 ==> fetch.requires(
                (self.fetch_request(binding),),
            )
        &&& forall|reply: Result<FetchedOutputs, Error>| #[trigger]
            fetch.ensures((self.fetch_request(binding),), reply) ==> (reply matches Ok(fetched)
                ==> {
                &&& none_null(fetched.values@)
                &&& free.requires((self.free_request(fetched.array@),))
            })
    }

    /// Whether `result` is what a bound run gives when the three functions make the
    /// calls: a failure of either of the first two is final; the outputs are fetched
    /// only where some are bound; and their array is freed once they are read.
    pub open spec fn bound_ran<
        Run: FnOnce(BoundRunRequest) -> Result<(), Error>,
        Fetch: FnOnce(FetchRequest) -> Result<FetchedOutputs, Error>,
        Free: FnOnce(FreeRequest),
    >(
        &self,
        binding: IoBinding,
        run_options: Option<&RunOptions<NoSelectedOutputs>>,
        run: Run,
        fetch: Fetch,
        free: Free,
        result: Result<SessionOutputs, Error>,
    ) -> bool {
        exists|status: Result<(), Error>, next: AfterBoundRun|
            {
                &&& #[trigger] run.ensures((self.bound_run_request(binding, run_options),), status)
                &&& #[trigger] self.follows_bound_run(binding, status, next)
                &&& match next {
                    AfterBoundRun::Done(done) => result == done,
                    AfterBoundRun::Fetch(request) => exists|
                        reply: Result<FetchedOutputs, Error>,
                    |
                        {
                            &&& #[trigger] fetch.ensures((request,), reply)
                            &&& match reply {
                                Ok(fetched) => {
                                    &&& result matches Ok(outputs) && outputs@
                                        == self.bound_outputs(binding, fetched.values@)
                                    &&& free.ensures((self.free_request(fetched.array@),), ())
                                },
                                Err(error) => result == Err::<SessionOutputs, Error>(error),
                            }
                        },
                }
            }
    }

    /// Runs the model on what is bound in `binding`, and gives the bound outputs. `run`,
    /// `fetch` and `free` make the calls: `RunWithBinding`, `GetBoundOutputValues`, and
    /// the one that gives an array back to the session's allocator.
    pub fn run_binding<
        Run: FnOnce(BoundRunRequest) -> Result<(), Error>,
        Fetch: FnOnce(FetchRequest) -> Result<FetchedOutputs, Error>,
        Free: FnOnce(FreeRequest),
    >(&mut self, binding: &IoBinding, run: Run, fetch: Fetch, free: Free) -> (result: Result<
        SessionOutputs,
        Error,
    >)
        requires
            old(self).bound_served(*binding, None, run, fetch, free),
        ensures
            *final(self) == *old(self),
            old(self).bound_ran(*binding, None, run, fetch, free, result),
    {
        self.run_binding_inner(binding, None, run, fetch, free)
    }

    /// A bound run with options.
    fn run_binding_inner<
        Run: FnOnce(BoundRunRequest) -> Result<(), Error>,
        Fetch: FnOnce(FetchRequest) -> Result<FetchedOutputs, Error>,
        Free: FnOnce(FreeRequest),
    >(
        &self,
        binding: &IoBinding,
        run_options: Option<&RunOptions<NoSelectedOutputs>>,
        run: Run,
        fetch: Fetch,
        free: Free,
    ) -> (result: Result<SessionOutputs, Error>)
        requires
            self.bound_served(*binding, run_options, run, fetch, free),
        ensures
            self.bound_ran(*binding, run_options, run, fetch, free, result),
    {
        let status = run(self.start_bound_run(binding, run_options));
        match self.after_bound_run(binding, status) {
            AfterBoundRun::Done(result) => result,
            AfterBoundRun::Fetch(request) => match fetch(request) {
                Ok(fetched) => {
                    let outputs = self.collect_bound_outputs(binding, &fetched.values);
                    let allocator = self.inner.allocator.ptr();
                    free(FreeRequest { allocator, block: fetched.array.addr() });
                    Ok(outputs)
                },
                Err(error) => Err(error),
            },
        }
    }
}

} // verus!
