//! The MPS execution provider.

use crate::ep::{Arch, Platform, RegisterError, Vendor};
use crate::error::Error;
use crate::pointer::AsPointer;
use crate::session::builder::SessionBuilder;
use vstd::prelude::*;

verus! {

/// [MPS execution provider](https://onnxruntime.ai/docs/execution-providers/MPS-ExecutionProvider.html)
/// for Apple Silicon GPUs.
#[derive(Debug)]
pub struct MPS {
    flags: u32,
}

impl View for MPS {
    type V = u32;

    /// The flags of the provider.
    closed spec fn view(&self) -> u32 {
        self.flags
    }
}

impl Clone for MPS {
    /// A provider with the same flags.
    fn clone(&self) -> (mps: MPS)
        ensures
            mps == *self,
    {
        MPS { flags: self.flags }
    }
}

impl Default for MPS {
    /// The provider with no flag set.
    fn default() -> (mps: MPS)
        ensures
            mps@ == 0,
    {
        MPS { flags: 0 }
    }
}

impl MPS {
    /// Configures the MPS execution provider flags.
    #[must_use]
    pub fn with_flags(self, flags: u32) -> (mps: MPS)
        ensures
            mps@ == flags,
    {
        let mut mps = self;
        mps.flags = flags;
        mps
    }

    /// The name that the runtime knows the provider by.
    pub fn name(&self) -> (name: &'static str)
        ensures
            name@ == "MPSExecutionProvider"@,
    {
        "MPSExecutionProvider"
    }

    /// Whether the provider exists on `platform`: on Apple Silicon, and nowhere else.
    pub fn supported_by_platform(&self, platform: &Platform) -> (supported: bool)
        ensures
            supported == (platform.vendor == Vendor::Apple && platform.arch == Arch::Aarch64),
    {
        platform.vendor == Vendor::Apple && platform.arch == Arch::Aarch64
    }

    /// Whether `result` is what registering the provider with `session_builder` gives
    /// when `append` makes the call: without one the support is missing; otherwise it
    /// is called once, with the builder's options and the provider's flags.
    pub open spec fn registered<F: FnOnce(usize, u32) -> Result<(), Error>>(
        &self,
        session_builder: SessionBuilder,
        append: Option<F>,
        result: Result<(), RegisterError>,
    ) -> bool {
        match append {
            Some(append) => exists|status: Result<(), Error>|
                {
                    &&& #[trigger] append.ensures((session_builder.address(), self@), status)
                    &&& match status {
                        Ok(()) => result == Ok::<(), RegisterError>(()),
                        Err(error) => result == Err::<(), RegisterError>(
                            RegisterError::Error(error),
                        ),
                    }
                },
            None => result == Err::<(), RegisterError>(RegisterError::MissingFeature),
        }
    }

    /// Makes the sessions of `session_builder` run on the provider. `append` makes the
    /// call: it is handed the address of the session options and the flags. A program
    /// that was built without support for the provider has none.
    pub fn register<F: FnOnce(usize, u32) -> Result<(), Error>>(
        &self,
        session_builder: &mut SessionBuilder,
        append: Option<F>,
    ) -> (result: Result<(), RegisterError>)
        requires
            append matches Some(append) ==> append.requires(
                (old(session_builder).address(), self@),
            ),
        ensures
            *final(session_builder) == *old(session_builder),
            self.registered(*old(session_builder), append, result),
    {
        match append {
            Some(append) => match append(session_builder.ptr(), self.flags) {
                Ok(()) => Ok(()),
                Err(error) => Err(RegisterError::Error(error)),
            },
            None => Err(RegisterError::MissingFeature),
        }
    }
}


/// Registering asks the runtime once, with the builder's options object and the provider's
/// flags. It succeeds exactly where the runtime did, whatever the flags are, and fails with
/// the runtime's own error.
pub proof fn law_registering_hands_the_answer_on<F: FnOnce(usize, u32) -> Result<(), Error>>(
    mps: MPS,
    session_builder: SessionBuilder,
    append: F,
    result: Result<(), RegisterError>,
)
    requires
        mps.registered(session_builder, Some(append), result),
    ensures
        exists|status: Result<(), Error>|
            {
                &&& #[trigger] append.ensures((session_builder.options@, mps@), status)
                &&& result is Ok <==> status is Ok
                &&& status matches Err(error) ==> result == Err::<(), RegisterError>(
                    RegisterError::Error(error),
                )
            },
        (forall|status: Result<(), Error>|
            append.ensures((session_builder.options@, mps@), status) ==> status is Err)
            ==> result is Err,
        (forall|status: Result<(), Error>|
            append.ensures((session_builder.options@, mps@), status) ==> status is Ok)
            ==> result is Ok,
{
    assert(session_builder.address() == session_builder.options@);
}

/// Without the call there is nothing to register with, and that is what is reported.
pub proof fn law_registering_needs_support<F: FnOnce(usize, u32) -> Result<(), Error>>(
    mps: MPS,
    session_builder: SessionBuilder,
    result: Result<(), RegisterError>,
)
    requires
        mps.registered(session_builder, None::<F>, result),
    ensures
        result == Err::<(), RegisterError>(RegisterError::MissingFeature),
{
}

/// The flags that are set last are the provider's, whatever they were before; a copy has
/// them too; and at first there are none.
pub proof fn law_last_flags_count(
    first: MPS,
    mps: MPS,
    flags: u32,
    changed: MPS,
    copy: MPS,
)
    requires
        call_ensures(<MPS as Default>::default, (), first),
        call_ensures(MPS::with_flags, (mps, flags), changed),
        call_ensures(<MPS as Clone>::clone, (&changed,), copy),
    ensures
        first@ == 0,
        changed@ == flags,
        copy@ == flags,
{
}

/// The provider has one name, and is for Apple Silicon and nothing else.
pub proof fn law_mps_is_for_apple_silicon(
    mps: &MPS,
    name: &'static str,
    platform: &Platform,
    supported: bool,
)
    requires
        call_ensures(MPS::name, (mps,), name),
        call_ensures(MPS::supported_by_platform, (mps, platform), supported),
    ensures
        name@ == "MPSExecutionProvider"@,
        supported <==> platform.vendor is Apple && platform.arch is Aarch64,
{
}

/// What a caller of `register` gets: the runtime is asked once, about this builder's options
/// and these flags, and its answer is handed on; without the call, the support is missing;
/// and the builder stays as it was.
pub proof fn law_register<F: FnOnce(usize, u32) -> Result<(), Error>>(
    mps: &MPS,
    session_builder: &mut SessionBuilder,
    append: Option<F>,
    result: Result<(), RegisterError>,
)
    requires
        call_ensures(MPS::register::<F>, (mps, session_builder, append), result),
    ensures
        *final(session_builder) == *old(session_builder),
        append is None ==> result == Err::<(), RegisterError>(RegisterError::MissingFeature),
        append matches Some(append) ==> exists|status: Result<(), Error>|
            {
                &&& #[trigger] append.ensures((old(session_builder).options@, mps@), status)
                &&& result is Ok <==> status is Ok
                &&& status matches Err(error) ==> result == Err::<(), RegisterError>(
                    RegisterError::Error(error),
                )
            },
{
    match append {
        Some(append) => {
            law_registering_hands_the_answer_on(*mps, *old(session_builder), append, result);
        },
        None => {
            law_registering_needs_support::<F>(*mps, *old(session_builder), result);
        },
    }
}

/// Nothing is asked of a caller of `register` but a call that takes this builder's options
/// and these flags, if there is one.
pub proof fn law_register_takes_any_call<F: FnOnce(usize, u32) -> Result<(), Error>>(
    mps: &MPS,
    session_builder: &mut SessionBuilder,
    append: Option<F>,
)
    requires
        append matches Some(append) ==> append.requires(
            (old(session_builder).options@, mps@),
        ),
    ensures
        call_requires(MPS::register::<F>, (mps, session_builder, append)),
{
    assert(old(session_builder).address() == old(session_builder).options@);
}

} // verus!
