//! What can go wrong in a call.

use vstd::prelude::*;

verus! {

/// The kinds of failure that the runtime tells apart.
#[derive(Clone, Copy, Debug, PartialEq, Eq, Structural)]
pub enum ErrorCode {
    GenericFailure,
    InvalidArgument,
    NoSuchFile,
    NoModel,
    EngineError,
    RuntimeException,
    InvalidProtobuf,
    ModelLoaded,
    NotImplemented,
    InvalidGraph,
    ExecutionProviderFailure,
    ModelLoadCanceled,
    ModelRequiresCompilation,
    NotFound,
    DeviceReset,
}

/// A failure: its kind, and what to tell the user.
#[derive(Clone, Debug, PartialEq, Eq)]
pub struct Error {
    pub code: ErrorCode,
    pub msg: String,
}

impl Error {
    /// An error of kind `code` with the message `msg`.
    pub fn new_with_code(code: ErrorCode, msg: String) -> (error: Error)
        ensures
            error.code == code,
            error.msg == msg,
    {
        Error { code, msg }
    }
}

/// An error is of the kind that it is made with, and says what it is made with.
pub proof fn law_error_keeps_its_parts(code: ErrorCode, msg: String, error: Error)
    requires
        call_ensures(Error::new_with_code, (code, msg), error),
    ensures
        error.code == code,
        error.msg@ == msg@,
{
}

} // verus!
