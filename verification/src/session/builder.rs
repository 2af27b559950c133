//! Sessions that are yet to be made.

use crate::error::Error;
use crate::pointer::{AsPointer, Pointer};
use vstd::prelude::*;

verus! {

/// The options that a session is made with.
#[derive(Debug)]
pub struct SessionBuilder {
    pub options: Pointer,
}

/// Whether `result` is the builder that comes of the answer `options` to a request for
/// an options object.
pub open spec fn built(
    options: Result<Pointer, Error>,
    result: Result<SessionBuilder, Error>,
) -> bool {
    match options {
        Ok(options) => result == Ok::<SessionBuilder, Error>(SessionBuilder { options }),
        Err(error) => result == Err::<SessionBuilder, Error>(error),
    }
}

impl SessionBuilder {
    /// A builder around the options object that the runtime made, or the failure to
    /// make one.
    pub fn new(options: Result<Pointer, Error>) -> (result: Result<SessionBuilder, Error>)
        ensures
            built(options, result),
    {
        match options {
            Ok(options) => Ok(SessionBuilder { options }),
            Err(error) => Err(error),
        }
    }
}

impl AsPointer for SessionBuilder {
    open spec fn address(&self) -> usize {
        self.options@
    }

    fn ptr(&self) -> usize {
        self.options.addr()
    }
}

/// A builder comes of exactly the answers that hold an options object, and is one around
/// that object; a failure is handed on.
pub proof fn law_builder_wraps_the_answer(
    options: Result<Pointer, Error>,
    result: Result<SessionBuilder, Error>,
)
    requires
        built(options, result),
    ensures
        result is Ok <==> options is Ok,
        options matches Ok(pointer) ==> result->Ok_0.options == pointer,
        options matches Ok(pointer) ==> result->Ok_0.address() == pointer@,
        options matches Err(error) ==> result == Err::<SessionBuilder, Error>(error),
{
}

/// The options object that a builder is made around is the one that it hands over.
pub proof fn law_builder_hands_its_options_over(
    options: Result<Pointer, Error>,
    result: Result<SessionBuilder, Error>,
    builder: &SessionBuilder,
    addr: usize,
)
    requires
        call_ensures(SessionBuilder::new, (options,), result),
        call_ensures(<SessionBuilder as AsPointer>::ptr, (builder,), addr),
    ensures
        result is Ok <==> options is Ok,
        options matches Err(error) ==> result == Err::<SessionBuilder, Error>(error),
        options matches Ok(pointer) ==> result->Ok_0.options == pointer,
        addr == builder.options@,
{
    law_builder_wraps_the_answer(options, result);
}

} // verus!
